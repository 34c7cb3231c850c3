use vstd::prelude::*;

verus! {

/// The image formats that the job reads and writes.
#[derive(Clone, Copy, Debug, PartialEq, Eq, Structural)]
pub enum FileType {
    Png,
}

/// The extension, without its dot, that stands for a file type.
pub open spec fn ext_spec(ft: Option<FileType>) -> Seq<char> {
    match ft {
        Some(FileType::Png) => "png"@,
        None => "png"@,
    }
}

/// The extension that governs both enumerations of a run; PNG where no file
/// type was given.
pub fn get_ext(ft: &Option<FileType>) -> (r: &'static str)
    ensures
        r@ == ext_spec(*ft),
{
    proof {
        reveal_strlit("png");
    }
    match ft {
        Some(t) => match t {
            FileType::Png => "png",
        },
        None => "png",
    }
}

/// Which of the three directories of a run is meant.
#[derive(Clone, Copy, Debug, PartialEq, Eq, Structural)]
pub enum DirRole {
    Background,
    Foreground,
    Output,
}

/// The verdict on the three directories, given whether each exists: the
/// first missing one in the order background, foreground, output, or none.
pub open spec fn dirs_verdict(bg_exists: bool, fg_exists: bool, out_exists: bool) -> Result<
    (),
    DirRole,
> {
    if !bg_exists {
        Err(DirRole::Background)
    } else if !fg_exists {
        Err(DirRole::Foreground)
    } else if !out_exists {
        Err(DirRole::Output)
    } else {
        Ok(())
    }
}

/// Decides whether a run may start: it may only where all three of its
/// directories exist, and otherwise the first missing one is reported.
pub fn check_directories(bg_exists: bool, fg_exists: bool, out_exists: bool) -> (r: Result<
    (),
    DirRole,
>)
    ensures
        r == dirs_verdict(bg_exists, fg_exists, out_exists),
        r.is_ok() == (bg_exists && fg_exists && out_exists),
{
    if !bg_exists {
        Err(DirRole::Background)
    } else if !fg_exists {
        Err(DirRole::Foreground)
    } else if !out_exists {
        Err(DirRole::Output)
    } else {
        Ok(())
    }
}

/// A run whose output directory is missing is refused at the start, whatever
/// the other two directories are: nothing is read and nothing is written.
pub proof fn lemma_missing_output_refused(bg_exists: bool, fg_exists: bool)
    ensures
        dirs_verdict(bg_exists, fg_exists, false).is_err(),
        bg_exists && fg_exists ==> dirs_verdict(bg_exists, fg_exists, false) == Err::<
            (),
            DirRole,
        >(DirRole::Output),
{
}

} // verus!
