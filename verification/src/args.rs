//! The command line: `hyprsnap [--save-dir <dir>] [--preview] <image.png>`.

use vstd::prelude::*;

use crate::option_view;

verus! {

/// What the command line asks for.
pub struct Config {
    /// The screenshot to annotate.
    pub image_path: String,
    /// The directory given with `--save-dir`, if any.
    pub save_dir: Option<String>,
    /// Whether `--preview` asked for the small preview window first.
    pub preview: bool,
}

/// Why a command line was refused.
#[derive(Clone, Copy, Debug, PartialEq, Eq, Structural)]
pub enum ArgsError {
    /// No arguments, or no image path among them.
    Usage,
    /// `--save-dir` was the last argument.
    MissingSaveDirValue,
}

/// The settings gathered while reading the arguments from left to right.
pub struct ScanState {
    pub image_path: Seq<char>,
    pub save_dir: Option<Seq<char>>,
    pub preview: bool,
}

pub open spec fn save_dir_flag() -> Seq<char> {
    "--save-dir"@
}

pub open spec fn preview_flag() -> Seq<char> {
    "--preview"@
}

/// Reads `args` from position `i` on: `--save-dir` takes the next argument
/// as the save directory (`None` when there is none), `--preview` turns the
/// preview on, and any other argument becomes the image path, a later one
/// replacing an earlier one.
pub open spec fn scan(args: Seq<Seq<char>>, i: int, acc: ScanState) -> Option<ScanState>
    decreases args.len() - i,
{
    if i < 0 || i >= args.len() {
        Some(acc)
    } else if args[i] == save_dir_flag() {
        if i + 1 < args.len() {
            scan(args, i + 2, ScanState { save_dir: Some(args[i + 1]), ..acc })
        } else {
            None
        }
    } else if args[i] == preview_flag() {
        scan(args, i + 1, ScanState { preview: true, ..acc })
    } else {
        scan(args, i + 1, ScanState { image_path: args[i], ..acc })
    }
}

pub open spec fn no_settings() -> ScanState {
    ScanState { image_path: Seq::empty(), save_dir: None, preview: false }
}

/// The outcome for the command line `args`, whose first element is the
/// program's name.
pub open spec fn parse_args_spec(args: Seq<Seq<char>>) -> Result<ScanState, ArgsError> {
    if args.len() < 2 {
        Err(ArgsError::Usage)
    } else {
        match scan(args, 1, no_settings()) {
            None => Err(ArgsError::MissingSaveDirValue),
            Some(s) => if s.image_path.len() == 0 {
                Err(ArgsError::Usage)
            } else {
                Ok(s)
            },
        }
    }
}

pub open spec fn strings_view(args: Seq<String>) -> Seq<Seq<char>> {
    args.map_values(|s: String| s@)
}

impl Config {
    pub open spec fn scan_state(&self) -> ScanState {
        ScanState {
            image_path: self.image_path@,
            save_dir: option_view(self.save_dir),
            preview: self.preview,
        }
    }
}

/// Reads the command line `args` (the program's name first).
pub fn parse_args(args: &Vec<String>) -> (r: Result<Config, ArgsError>)
    ensures
        match (r, parse_args_spec(strings_view(args@))) {
            (Ok(c), Ok(s)) => c.scan_state() == s,
            (Err(e), Err(f)) => e == f,
            _ => false,
        },
{
    let ghost view = strings_view(args@);
    if args.len() < 2 {
        return Err(ArgsError::Usage);
    }
    let save_flag = String::from_str("--save-dir");
    let preview_flag_arg = String::from_str("--preview");
    let mut image_path = String::new();
    let mut save_dir: Option<String> = None;
    let mut preview = false;
    let mut i: usize = 1;
    while i < args.len()
        invariant
            view == strings_view(args@),
            save_flag@ == save_dir_flag(),
            preview_flag_arg@ == preview_flag(),
            1 <= i <= args@.len(),
            scan(view, i as int, ScanState {
                image_path: image_path@,
                save_dir: option_view(save_dir),
                preview,
            }) == scan(view, 1, no_settings()),
        decreases args@.len() - i,
    {
        assert(view[i as int] == args@[i as int]@);
        if args[i] == save_flag {
            i = i + 1;
            if i < args.len() {
                assert(view[i as int] == args@[i as int]@);
                save_dir = Some(args[i].clone());
            } else {
                return Err(ArgsError::MissingSaveDirValue);
            }
        } else if args[i] == preview_flag_arg {
            preview = true;
        } else {
            image_path = args[i].clone();
        }
        i = i + 1;
    }
    if image_path.as_str().is_empty() {
        return Err(ArgsError::Usage);
    }
    Ok(Config { image_path, save_dir, preview })
}

/// A scan result with the preview turned on.
pub open spec fn with_preview(r: Option<ScanState>) -> Option<ScanState> {
    match r {
        Some(s) => Some(ScanState { preview: true, ..s }),
        None => None,
    }
}

proof fn lemma_scan_preview_sticks(args: Seq<Seq<char>>, i: int, acc: ScanState)
    ensures
        scan(args, i, ScanState { preview: true, ..acc }) == with_preview(
            scan(args, i, ScanState { preview: false, ..acc }),
        ),
    decreases args.len() - i,
{
    if i < 0 || i >= args.len() {
    } else if args[i] == save_dir_flag() {
        if i + 1 < args.len() {
            lemma_scan_preview_sticks(args, i + 2, ScanState { save_dir: Some(args[i + 1]), ..acc });
        }
    } else if args[i] == preview_flag() {
        lemma_scan_preview_sticks(args, i + 1, acc);
        let t = ScanState { preview: true, ..acc };
        assert(ScanState { preview: true, ..t } == t);
    } else {
        lemma_scan_preview_sticks(args, i + 1, ScanState { image_path: args[i], ..acc });
    }
}

proof fn lemma_scan_shift(args: Seq<Seq<char>>, i: int, acc: ScanState)
    requires
        args.len() >= 1,
        1 <= i <= args.len(),
    ensures
        scan(seq![args[0], preview_flag()] + args.subrange(1, args.len() as int), i + 1, acc)
            == scan(args, i, acc),
    decreases args.len() - i,
{
    let args2 = seq![args[0], preview_flag()] + args.subrange(1, args.len() as int);
    assert(args2.len() == args.len() + 1);
    if i < args.len() {
        assert(args2[i + 1] == args[i]);
        if i + 1 < args.len() {
            assert(args2[i + 2] == args[i + 1]);
        }
        if args[i] == save_dir_flag() {
            if i + 1 < args.len() {
                lemma_scan_shift(args, i + 2, ScanState { save_dir: Some(args[i + 1]), ..acc });
            }
        } else if args[i] == preview_flag() {
            lemma_scan_shift(args, i + 1, ScanState { preview: true, ..acc });
        } else {
            lemma_scan_shift(args, i + 1, ScanState { image_path: args[i], ..acc });
        }
    }
}

/// Putting `--preview` first among the arguments turns the preview on and
/// changes nothing else: the same image path, the same save directory, the
/// same error, whatever the other arguments are.
pub proof fn lemma_preview_flag_turns_preview_on(args: Seq<Seq<char>>)
    requires
        args.len() >= 1,
    ensures
        parse_args_spec(seq![args[0], preview_flag()] + args.subrange(1, args.len() as int))
            == match parse_args_spec(args) {
            Ok(s) => Ok(ScanState { preview: true, ..s }),
            Err(e) => Err(e),
        },
{
    let args2 = seq![args[0], preview_flag()] + args.subrange(1, args.len() as int);
    assert(args2[1] == preview_flag());
    reveal_strlit("--preview");
    reveal_strlit("--save-dir");
    assert(preview_flag().len() != save_dir_flag().len());
    lemma_scan_shift(args, 1, ScanState { preview: true, ..no_settings() });
    lemma_scan_preview_sticks(args, 1, no_settings());
    if args.len() < 2 {
        assert(args2.len() == 2);
    }
}

proof fn lemma_scan_keeps_preview(args: Seq<Seq<char>>, i: int, acc: ScanState)
    requires
        forall|j: int| 0 <= j < args.len() ==> args[j] != preview_flag(),
    ensures
        scan(args, i, acc) matches Some(s) ==> s.preview == acc.preview,
    decreases args.len() - i,
{
    if i < 0 || i >= args.len() {
    } else if args[i] == save_dir_flag() {
        if i + 1 < args.len() {
            lemma_scan_keeps_preview(args, i + 2, ScanState { save_dir: Some(args[i + 1]), ..acc });
        }
    } else {
        lemma_scan_keeps_preview(args, i + 1, ScanState { image_path: args[i], ..acc });
    }
}

/// Without a `--preview` argument the preview stays off.
pub proof fn lemma_no_preview_flag(args: Seq<Seq<char>>)
    requires
        forall|j: int| 0 <= j < args.len() ==> args[j] != preview_flag(),
    ensures
        parse_args_spec(args) matches Ok(s) ==> !s.preview,
{
    lemma_scan_keeps_preview(args, 1, no_settings());
}

proof fn lemma_scan_plain(args: Seq<Seq<char>>, i: int, acc: ScanState)
    requires
        forall|j: int| 0 <= j < args.len() ==> args[j] != preview_flag() && args[j] != save_dir_flag(),
        0 <= i < args.len(),
    ensures
        scan(args, i, acc) == Some(ScanState { image_path: args.last(), ..acc }),
    decreases args.len() - i,
{
    let next = ScanState { image_path: args[i], ..acc };
    assert(args[i] != preview_flag() && args[i] != save_dir_flag());
    if i + 1 < args.len() {
        lemma_scan_plain(args, i + 1, next);
    } else {
        assert(scan(args, i + 1, next) == Some(next));
    }
}

/// With no `--preview` or `--save-dir` among them, the last argument is the
/// image path, the preview is off and there is no save directory; an empty
/// last argument, or no argument after the program's name, is a usage error.
pub proof fn lemma_plain_arguments(args: Seq<Seq<char>>)
    requires
        forall|j: int| 0 <= j < args.len() ==> args[j] != preview_flag() && args[j] != save_dir_flag(),
    ensures
        parse_args_spec(args) == if args.len() < 2 || args.last().len() == 0 {
            Err::<ScanState, ArgsError>(ArgsError::Usage)
        } else {
            Ok(ScanState { image_path: args.last(), save_dir: None, preview: false })
        },
{
    if args.len() >= 2 {
        lemma_scan_plain(args, 1, no_settings());
    }
}

proof fn lemma_scan_append(a: Seq<Seq<char>>, b: Seq<Seq<char>>, i: int, acc: ScanState)
    requires
        0 <= i <= a.len(),
        scan(a, i, acc) is Some,
    ensures
        scan(a + b, i, acc) == scan(a + b, a.len() as int, scan(a, i, acc)->0),
    decreases a.len() - i,
{
    if i < a.len() {
        assert((a + b)[i] == a[i]);
        if a[i] == save_dir_flag() {
            assert((a + b)[i + 1] == a[i + 1]);
            lemma_scan_append(a, b, i + 2, ScanState { save_dir: Some(a[i + 1]), ..acc });
        } else if a[i] == preview_flag() {
            lemma_scan_append(a, b, i + 1, ScanState { preview: true, ..acc });
        } else {
            lemma_scan_append(a, b, i + 1, ScanState { image_path: a[i], ..acc });
        }
    }
}

/// Adding `--save-dir <dir>` after a command line that is accepted keeps
/// everything it asked for and sets the save directory to `dir`.
pub proof fn lemma_trailing_save_dir(args: Seq<Seq<char>>, dir: Seq<char>)
    requires
        parse_args_spec(args) is Ok,
    ensures
        parse_args_spec(args + seq![save_dir_flag(), dir]) == Ok::<ScanState, ArgsError>(
            ScanState { save_dir: Some(dir), ..parse_args_spec(args)->Ok_0 },
        ),
{
    let b = seq![save_dir_flag(), dir];
    let ab = args + b;
    lemma_scan_append(args, b, 1, no_settings());
    assert(ab[args.len() as int] == save_dir_flag());
    assert(ab[args.len() + 1int] == dir);
    let s = parse_args_spec(args)->Ok_0;
    let t = ScanState { save_dir: Some(dir), ..s };
    assert(scan(ab, args.len() + 2int, t) == Some(t));
    assert(scan(ab, args.len() as int, s) == Some(t));
}

} // verus!
