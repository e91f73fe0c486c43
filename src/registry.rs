//! The roster of games, each known by a numeric id and a name.
use vstd::prelude::*;
use vstd::string::StringSliceAdditionalSpecFns;

verus! {

#[derive(Clone, Copy, Debug, PartialEq, Eq, Structural, Hash)]
pub struct GameId(pub u32);

#[derive(Clone, Copy, Debug, PartialEq, Eq)]
pub struct GameDefinition {
    pub id: GameId,
    pub name: &'static str,
}

pub const PONG_NAME: &'static str = "Pong";
pub const ARKANOID_NAME: &'static str = "Arkanoid";

pub fn pong_definition() -> (r: GameDefinition)
    ensures
        r.id == GameId(0),
        r.name@ == PONG_NAME@,
{
    GameDefinition { id: GameId(0), name: PONG_NAME }
}

pub fn arkanoid_definition() -> (r: GameDefinition)
    ensures
        r.id == GameId(1),
        r.name@ == ARKANOID_NAME@,
{
    GameDefinition { id: GameId(1), name: ARKANOID_NAME }
}

/// Whether two byte strings are equal.
fn bytes_equal(a: &[u8], b: &[u8]) -> (r: bool)
    ensures
        r == (a@ == b@),
{
    if a.len() != b.len() {
        return false;
    }
    let mut i: usize = 0;
    while i < a.len()
        invariant
            a@.len() == b@.len(),
            i <= a@.len(),
            forall|k: int| 0 <= k < i ==> a@[k] == b@[k],
        decreases a@.len() - i,
    {
        if a[i] != b[i] {
            return false;
        }
        i = i + 1;
    }
    assert(a@ =~= b@);
    true
}

/// The registered game with exactly this name, if any.
pub fn find_game(name: &str) -> (r: Option<GameDefinition>)
    ensures
        name.spec_bytes() == PONG_NAME.spec_bytes() ==> r == Some(
            GameDefinition { id: GameId(0), name: PONG_NAME },
        ),
        name.spec_bytes() == ARKANOID_NAME.spec_bytes() && name.spec_bytes() != PONG_NAME.spec_bytes()
            ==> r == Some(GameDefinition { id: GameId(1), name: ARKANOID_NAME }),
        name.spec_bytes() != PONG_NAME.spec_bytes() && name.spec_bytes() != ARKANOID_NAME.spec_bytes()
            ==> r is None,
{
    if bytes_equal(name.as_bytes(), PONG_NAME.as_bytes()) {
        Some(GameDefinition { id: GameId(0), name: PONG_NAME })
    } else if bytes_equal(name.as_bytes(), ARKANOID_NAME.as_bytes()) {
        Some(GameDefinition { id: GameId(1), name: ARKANOID_NAME })
    } else {
        None
    }
}

} // verus!
