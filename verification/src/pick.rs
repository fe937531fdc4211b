//! "Random album": pick one album of the library uniformly and play it.

use vstd::prelude::*;
use crate::action::Action;
use crate::strings::{push_str, empty_string};
use rand::seq::IteratorRandom;

verus! {

/// An album of the library cache.
#[derive(Clone, Debug)]
pub struct AlbumEntry {
    pub rating_key: String,
    pub title: String,
}

/// `IteratorRandom::choose` over `0..len` with the thread-local generator:
/// `None` exactly when `len` is 0, otherwise some index below `len`. Which
/// index is left open (it is random).
#[verifier::external_body]
fn random_index(len: usize) -> (r: Option<usize>)
    ensures
        (len == 0) == (r is None),
        r matches Some(i) ==> i < len,
{
    (0..len).choose(&mut rand::thread_rng())
}

/// What picking album `pick` does: play it, or — with nothing picked —
/// the error "No albums in library to pick from".
pub fn album_pick_action(albums: &Vec<AlbumEntry>, pick: Option<usize>) -> (r: Result<Action, String>)
    requires
        pick matches Some(i) ==> i < albums@.len(),
    ensures
        match pick {
            Some(i) => r == Ok::<Action, String>(
                (Action::PlayAlbumNow { rating_key: albums@[i as int].rating_key, title: albums@[i as int].title }),
            ),
            None => r matches Err(e) && e@ == "No albums in library to pick from"@,
        },
{
    match pick {
        Some(i) => Ok(
            Action::PlayAlbumNow { rating_key: albums[i].rating_key.clone(), title: albums[i].title.clone() },
        ),
        None => {
            let mut e = empty_string();
            push_str(&mut e, "No albums in library to pick from");
            Err(e)
        },
    }
}

/// Pick an album of the library at random and play it; an empty library
/// gives the error instead.
pub fn random_album_action(albums: &Vec<AlbumEntry>) -> (r: Result<Action, String>)
    ensures
        (albums@.len() == 0) == (r is Err),
        r matches Err(e) ==> e@ == "No albums in library to pick from"@,
        r matches Ok(a) ==> exists|i: int|
            0 <= i < albums@.len() && a == (Action::PlayAlbumNow {
                rating_key: #[trigger] albums@[i].rating_key,
                title: albums@[i].title,
            }),
{
    let pick = random_index(albums.len());
    album_pick_action(albums, pick)
}

} // verus!
