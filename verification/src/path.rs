//! Paths as strings: the home-directory shorthand, and the three questions
//! that only the platform's path rules can answer.

use crate::error::EnvFileError;
use vstd::prelude::*;
use vstd::string::*;

verus! {

/// `p` starts with a tilde, the shorthand for the home directory, whatever
/// follows it.
pub open spec fn begins_with_tilde(p: Seq<char>) -> bool {
    p.len() >= 1 && p[0] == '~'
}

/// `p` starts at the root of the file system.
pub open spec fn is_rooted(p: Seq<char>) -> bool {
    p.len() >= 1 && p[0] == '/'
}

/// `p` with its leading tilde replaced by `home`, where it has one;
/// otherwise `p` itself.
pub open spec fn expand_home(p: Seq<char>, home: Seq<char>) -> Seq<char> {
    if begins_with_tilde(p) {
        home + p.skip(1)
    } else {
        p
    }
}

/// Whether `p` starts with the shorthand for the home directory.
pub fn starts_with_home(p: &str) -> (res: bool)
    ensures
        res == begins_with_tilde(p@),
{
    let n: usize = p.unicode_len();
    n >= 1 && p.get_char(0) == '~'
}

/// Expands the home-directory shorthand at the start of `p`, in place: a
/// leading tilde is replaced by the home directory, and what follows the
/// tilde stays.
///
/// `home` is what the environment gave for the home directory, `None` where
/// it gave nothing. Without a home directory the fix-up fails and `p` stays
/// as it was, whether or not it uses the shorthand.
pub fn fix_home_dir(p: &mut String, home: Option<&str>) -> (res: Result<(), EnvFileError>)
    ensures
        home is None ==> res == Err::<(), EnvFileError>(EnvFileError::EnvError) && *final(p) == *old(
            p,
        ),
        home is Some ==> res is Ok && final(p)@ == expand_home(old(p)@, home->0@),
        home is Some && home->0@.len() > 0 && !begins_with_tilde(home->0@) ==> !begins_with_tilde(
            final(p)@,
        ),
{
    match home {
        None => Err(EnvFileError::EnvError),
        Some(h) => {
            proof {
                lemma_expand_home_tilde(p@, h@);
            }
            if starts_with_home(p.as_str()) {
                let n: usize = p.as_str().unicode_len();
                let mut fixed = String::from_str(h);
                fixed.append(p.as_str().substring_char(1, n));
                assert(p@.subrange(1, n as int) == p@.skip(1));
                *p = fixed;
            }
            Ok(())
        },
    }
}

/// The inputs on which a path still begins with a tilde after the
/// expansion: it began with one, and what took the tilde's place begins
/// with one again.
pub open spec fn keeps_tilde(p: Seq<char>, home: Seq<char>) -> bool {
    begins_with_tilde(p) && begins_with_tilde(home + p.skip(1))
}

/// The inputs on which a second expansion changes the path again: the path
/// still begins with a tilde after the first, and the home directory is
/// more than that tilde.
pub open spec fn expands_again(p: Seq<char>, home: Seq<char>) -> bool {
    keeps_tilde(p, home) && home != seq!['~']
}

/// A path begins with a tilde after the expansion on the inputs that
/// `keeps_tilde` describes, and on no others. Those are the paths with a
/// leading tilde where the home directory begins with a tilde itself, or is
/// empty and the path goes on with a second tilde.
pub proof fn lemma_expand_home_tilde(p: Seq<char>, home: Seq<char>)
    ensures
        begins_with_tilde(expand_home(p, home)) <==> keeps_tilde(p, home),
        keeps_tilde(p, home) <==> begins_with_tilde(p) && (begins_with_tilde(home) || (home.len()
            == 0 && begins_with_tilde(p.skip(1)))),
{
    if begins_with_tilde(p) {
        let r = home + p.skip(1);
        if home.len() == 0 {
            assert(r =~= p.skip(1));
        } else {
            assert(r[0] == home[0]);
        }
    }
}

/// With a home directory that is not empty and begins with no tilde, no
/// path begins with a tilde after the expansion.
pub proof fn lemma_expand_home_removes_tilde(p: Seq<char>, home: Seq<char>)
    requires
        home.len() > 0,
        !begins_with_tilde(home),
    ensures
        !begins_with_tilde(expand_home(p, home)),
{
    lemma_expand_home_tilde(p, home);
}

/// Expanding twice gives what expanding once gives, unless the path still
/// begins with a tilde after the first expansion and the home directory is
/// more than that tilde.
pub proof fn lemma_expand_home_idempotent(p: Seq<char>, home: Seq<char>)
    requires
        !expands_again(p, home),
    ensures
        expand_home(expand_home(p, home), home) == expand_home(p, home),
{
    lemma_expand_home_tilde(p, home);
    if keeps_tilde(p, home) {
        let r = home + p.skip(1);
        assert(r =~= p);
        assert(home + r.skip(1) =~= r);
    }
}

/// On the inputs that `expands_again` describes the fix-up is not
/// idempotent: a second expansion gives another path than the first.
pub proof fn lemma_expand_home_changes_again(p: Seq<char>, home: Seq<char>)
    requires
        expands_again(p, home),
    ensures
        expand_home(expand_home(p, home), home) != expand_home(p, home),
{
    let r = home + p.skip(1);
    if home.len() == 1 {
        assert(r[0] == home[0]);
        assert(home =~= seq!['~']);
    }
    assert(expand_home(r, home).len() == home.len() + r.len() - 1);
}

/// The expansion empties a path only where there is nothing to keep: the
/// path is a tilde alone and the home directory is empty.
pub proof fn lemma_expand_home_empty(p: Seq<char>, home: Seq<char>)
    ensures
        expand_home(p, home).len() == 0 <==> p.len() == 0 || (p.len() == 1 && p[0] == '~'
            && home.len() == 0),
{
}

/// The directory part of a path: what `async_std::path::PathBuf::pop` leaves
/// of it.
pub uninterp spec fn path_parent(p: Seq<char>) -> Seq<char>;

/// A relative path resolved against a directory: what
/// `std::path::PathBuf::push` makes of the two.
pub uninterp spec fn path_join(base: Seq<char>, rel: Seq<char>) -> Seq<char>;

/// Calls `async_std::path::PathBuf::pop` on `p`, which cuts the path down to
/// its parent and leaves a path without a parent as it is. The contract only
/// gives the outcome its name, `path_parent`.
#[verifier::external_body]
pub(crate) fn parent_of(p: &str) -> (res: String)
    ensures
        res@ == path_parent(p@),
{
    let mut all = async_std::path::PathBuf::from(p);
    all.pop();
    all.to_string_lossy().into_owned()
}

/// Calls `async_std::path::Path::is_relative`. On the Unix-like systems that
/// this library is for, a path is absolute exactly when it begins with a
/// slash, and relative otherwise: that is what the contract claims.
#[verifier::external_body]
pub(crate) fn is_relative(p: &str) -> (res: bool)
    ensures
        res == !is_rooted(p@),
{
    async_std::path::Path::new(p).is_relative()
}

/// Calls `std::path::PathBuf::push` on `base` with `rel`, which extends the
/// one path by the other. The contract only gives the outcome its name,
/// `path_join`.
#[verifier::external_body]
pub(crate) fn join(base: &str, rel: &str) -> (res: String)
    ensures
        res@ == path_join(base@, rel@),
{
    let mut cur = std::path::PathBuf::from(base);
    cur.push(rel);
    cur.to_string_lossy().into_owned()
}

} // verus!
