use vstd::prelude::*;
use crate::error::AtiumError;
use crate::text::{decimal, u32_text};

verus! {

/// The file name of a path without its extension, as `Path::file_stem` gives it.
pub uninterp spec fn file_stem_of(path: Seq<char>) -> Option<Seq<char>>;

/// The extension of a path's file name, as `Path::extension` gives it.
pub uninterp spec fn extension_of(path: Seq<char>) -> Option<Seq<char>>;

/// Relies on `std::path::Path::file_stem`. The stem of a path built from a
/// `str` is valid Unicode, so `OsStr::to_str` keeps it whole.
#[verifier::external_body]
fn path_file_stem(path: &str) -> (r: Option<String>)
    ensures
        match r {
            Some(s) => file_stem_of(path@) == Some(s@),
            None => file_stem_of(path@) is None,
        },
{
    std::path::Path::new(path).file_stem().and_then(|s| s.to_str()).map(|s| s.to_string())
}

/// Relies on `std::path::Path::extension`. The extension of a path built
/// from a `str` is valid Unicode, so `OsStr::to_str` keeps it whole.
#[verifier::external_body]
fn path_extension(path: &str) -> (r: Option<String>)
    ensures
        match r {
            Some(s) => extension_of(path@) == Some(s@),
            None => extension_of(path@) is None,
        },
{
    std::path::Path::new(path).extension().and_then(|s| s.to_str()).map(|s| s.to_string())
}

/// Relies on `uuid::Uuid::new_v4` and its `Display`: a fresh random token.
#[verifier::external_body]
pub(crate) fn new_token() -> (r: String) {
    uuid::Uuid::new_v4().to_string()
}

/// Relies on `rand::Rng::gen_range` over `0..10000` with the thread's
/// generator: a number below 10000.
#[verifier::external_body]
fn draw_disambiguator() -> (r: u32)
    ensures
        r < 10000,
{
    rand::Rng::gen_range(&mut rand::thread_rng(), 0..10000u32)
}

/// The name of the file that a path points to, without its extension; a
/// path without a file name gives a fresh random token instead.
pub fn get_file_name_from_path(path: &str) -> (r: Result<String, AtiumError>)
    ensures
        r is Ok,
        file_stem_of(path@) is Some ==> r->Ok_0@ == file_stem_of(path@)->Some_0,
{
    match path_file_stem(path) {
        Some(stem) => Ok(stem),
        None => Ok(new_token()),
    }
}

/// The extension of the file that a path points to, or `default_extension`
/// where it has none.
pub fn get_extension_from_path(path: &str, default_extension: &str) -> (r: Result<String, AtiumError>)
    ensures
        r is Ok,
        r->Ok_0@ == match extension_of(path@) {
            Some(e) => e,
            None => default_extension@,
        },
{
    match path_extension(path) {
        Some(extension) => Ok(extension),
        None => Ok(String::from_str(default_extension)),
    }
}

/// `{stem}-{n}.{extension}`.
pub open spec fn disambiguated(stem: Seq<char>, n: nat, extension: Seq<char>) -> Seq<char> {
    stem + "-"@ + decimal(n) + "."@ + extension
}

/// Joins a stem, a disambiguating number and an extension into
/// `{stem}-{n}.{extension}`.
pub fn join_disambiguated(stem: &String, n: u32, extension: &String) -> (r: String)
    ensures
        r@ == disambiguated(stem@, n as nat, extension@),
{
    let mut out = stem.clone();
    out.append("-");
    out.append(u32_text(n).as_str());
    out.append(".");
    out.append(extension.as_str());
    out
}

/// The path made from `output` for the number `n`: its stem (or `token`
/// where the path has no file name), a `-`, `n`, a `.`, and its extension (or
/// `default_extension` where the path has none).
pub open spec fn candidate_for(output: Seq<char>, default_extension: Seq<char>, n: nat, token: Seq<char>) -> Seq<char> {
    disambiguated(
        match file_stem_of(output) {
            Some(s) => s,
            None => token,
        },
        n,
        match extension_of(output) {
            Some(e) => e,
            None => default_extension,
        },
    )
}

/// `r` is a path that the resolver may give for `output`: `output` itself
/// where no file is there, else a candidate for a number below 10000 and
/// some random token.
pub open spec fn is_output_for(output: Seq<char>, default_extension: Seq<char>, exists: bool, r: Seq<char>) -> bool {
    if !exists {
        r == output
    } else {
        exists|n: nat, token: Seq<char>|
            n < 10000 && r == #[trigger] candidate_for(output, default_extension, n, token)
    }
}

/// A path to write to that does not overwrite a file: `output` itself where
/// `exists` says no file is there, else `{stem}-{n}.{extension}` with a
/// random `n` below 10000. `exists` is whether a file is at `output` now.
pub fn compute_output_file(output: &String, default_extension: &str, exists: bool) -> (r: Result<
    String,
    AtiumError,
>)
    ensures
        r is Ok,
        is_output_for(output@, default_extension@, exists, r->Ok_0@),
        !exists ==> r->Ok_0@ == output@,
        exists && file_stem_of(output@) is Some ==> r->Ok_0@.len() > file_stem_of(output@)->Some_0.len()
            && r->Ok_0@.subrange(0, file_stem_of(output@)->Some_0.len() as int)
            == file_stem_of(output@)->Some_0,
{
    if !exists {
        return Ok(output.clone());
    }
    let n = draw_disambiguator();
    let name = get_file_name_from_path(output.as_str())?;
    let extension = get_extension_from_path(output.as_str(), default_extension)?;
    let r = join_disambiguated(&name, n, &extension);
    proof {
        let token = if file_stem_of(output@) is Some { Seq::<char>::empty() } else { name@ };
        assert(r@ == candidate_for(output@, default_extension@, n as nat, token));
        if file_stem_of(output@) is Some {
            assert(r@.subrange(0, name@.len() as int) =~= name@);
        }
    }
    Ok(r)
}

} // verus!
