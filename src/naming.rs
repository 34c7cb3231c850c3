use vstd::prelude::*;

verus! {

/// What `std::path::Path::file_stem` gives for a path written as `path`:
/// the file name without its final extension, or nothing where the path has
/// no file name.
pub uninterp spec fn stem_of(path: Seq<char>) -> Option<Seq<char>>;

/// Relies on `std::path::Path::file_stem`, for the stem of a path given as
/// UTF-8 text (a piece of valid UTF-8 is valid UTF-8, so `to_str` keeps it).
#[verifier::external_body]
fn path_stem(path: &str) -> (r: Option<String>)
    ensures
        r.is_some() == stem_of(path@).is_some(),
        r.is_some() ==> r.unwrap()@ == stem_of(path@).unwrap(),
{
    std::path::Path::new(path).file_stem().and_then(|s| s.to_str()).map(|s| s.to_string())
}

/// The glob pattern that matches every file with extension `ext` at any
/// depth under `dir`.
pub open spec fn glob_pattern_spec(dir: Seq<char>, ext: Seq<char>) -> Seq<char> {
    dir + "/**/*."@ + ext
}

/// The path of the result of one pair: `<dir>/<bg_stem>-<fg_stem>.<ext>`.
pub open spec fn output_path_spec(
    dir: Seq<char>,
    bg_stem: Seq<char>,
    fg_stem: Seq<char>,
    ext: Seq<char>,
) -> Seq<char> {
    dir + "/"@ + bg_stem + "-"@ + fg_stem + "."@ + ext
}

/// A path from which no stem could be taken.
#[derive(Debug, PartialEq, Eq)]
pub struct StemError {
    pub path: String,
}

pub fn glob_pattern(dir: &str, ext: &str) -> (r: String)
    ensures
        r@ == glob_pattern_spec(dir@, ext@),
{
    let mut r = String::from_str(dir);
    r.append("/**/*.");
    r.append(ext);
    proof {
        reveal_strlit("/**/*.");
    }
    r
}

pub fn output_path(dir: &str, bg_stem: &str, fg_stem: &str, ext: &str) -> (r: String)
    ensures
        r@ == output_path_spec(dir@, bg_stem@, fg_stem@, ext@),
{
    let mut r = String::from_str(dir);
    r.append("/");
    r.append(bg_stem);
    r.append("-");
    r.append(fg_stem);
    r.append(".");
    r.append(ext);
    proof {
        reveal_strlit("/");
        reveal_strlit("-");
        reveal_strlit(".");
    }
    r
}

/// The stem of `path`, or the error that names it.
pub fn stem(path: &str) -> (r: Result<String, StemError>)
    ensures
        r.is_ok() == stem_of(path@).is_some(),
        r.is_ok() ==> r.unwrap()@ == stem_of(path@).unwrap(),
        r.is_err() ==> r.unwrap_err().path@ == path@,
{
    match path_stem(path) {
        Some(s) => Ok(s),
        None => Err(StemError { path: String::from_str(path) }),
    }
}

/// The output path for the pair of files `bg_path` and `fg_path`, from
/// their stems.
pub fn pair_output_path(dir: &str, bg_path: &str, fg_path: &str, ext: &str) -> (r: Result<
    String,
    StemError,
>)
    ensures
        r.is_ok() == (stem_of(bg_path@).is_some() && stem_of(fg_path@).is_some()),
        r.is_ok() ==> r.unwrap()@ == output_path_spec(
            dir@,
            stem_of(bg_path@).unwrap(),
            stem_of(fg_path@).unwrap(),
            ext@,
        ),
        r.is_err() ==> (if stem_of(bg_path@).is_none() {
            r.unwrap_err().path@ == bg_path@
        } else {
            r.unwrap_err().path@ == fg_path@
        }),
{
    let bg = stem(bg_path)?;
    let fg = stem(fg_path)?;
    Ok(output_path(dir, bg.as_str(), fg.as_str(), ext))
}

} // verus!
