use vstd::prelude::*;
use vstd::string::StringExecFns;
use crate::error::Error;

verus! {

/// The operating systems a file can be revealed on, and the rest.
#[derive(Debug, Clone, Copy, PartialEq, Eq)]
pub enum Platform {
    Windows,
    MacOs,
    Linux,
    Other,
}

/// A program to run and its arguments.
#[derive(Debug, Clone)]
pub struct Launch {
    pub program: String,
    pub args: Vec<String>,
}

/// The texts of a list of strings.
pub open spec fn texts(v: Seq<String>) -> Seq<Seq<char>> {
    v.map_values(|s: String| s@)
}

/// The parts joined with single spaces between them.
pub open spec fn space_joined(parts: Seq<Seq<char>>) -> Seq<char>
    decreases parts.len(),
{
    if parts.len() == 0 {
        seq![]
    } else if parts.len() == 1 {
        parts[0]
    } else {
        space_joined(parts.drop_last()) + seq![' '] + parts.last()
    }
}

/// The program and arguments that reveal `path` in the platform's file
/// manager: explorer with a selection on Windows, `open` on macOS and
/// `xdg-open` on Linux; other platforms are refused with an I/O error.
pub fn explorer_launch(platform: Platform, path: &str) -> (r: Result<Launch, Error>)
    ensures
        match platform {
            Platform::Windows => r is Ok && r->Ok_0.program@ == "explorer.exe"@ && texts(
                r->Ok_0.args@,
            ) == seq!["/select,"@, path@],
            Platform::MacOs => r is Ok && r->Ok_0.program@ == "open"@ && texts(r->Ok_0.args@)
                == seq![path@],
            Platform::Linux => r is Ok && r->Ok_0.program@ == "xdg-open"@ && texts(
                r->Ok_0.args@,
            ) == seq![path@],
            Platform::Other => r is Err && r->Err_0 is Io && r->Err_0.text()
                == "Unsupported platform"@,
        },
{
    match platform {
        Platform::Windows => {
            let args = vec![String::from_str("/select,"), String::from_str(path)];
            assert(texts(args@) =~= seq!["/select,"@, path@]);
            Ok(Launch { program: String::from_str("explorer.exe"), args })
        },
        Platform::MacOs => {
            let args = vec![String::from_str(path)];
            assert(texts(args@) =~= seq![path@]);
            Ok(Launch { program: String::from_str("open"), args })
        },
        Platform::Linux => {
            let args = vec![String::from_str(path)];
            assert(texts(args@) =~= seq![path@]);
            Ok(Launch { program: String::from_str("xdg-open"), args })
        },
        Platform::Other => Err(Error::Io(String::from_str("Unsupported platform"))),
    }
}

/// The error for a program that ended with a failing status: it names the
/// program's arguments joined by spaces, and the exit code, or `-1` where
/// the program gave none.
pub fn exit_status_error(args: &Vec<String>, code: Option<i32>) -> (r: Error)
    ensures
        r is ExitStatus,
        r->executable@ == space_joined(texts(args@)),
        r->status == match code {
            Some(c) => c,
            None => -1i32,
        },
{
    let mut executable = String::new();
    let mut i: usize = 0;
    while i < args.len()
        invariant
            i <= args@.len(),
            executable@ == space_joined(texts(args@.subrange(0, i as int))),
        decreases args@.len() - i,
    {
        let ghost before = args@.subrange(0, i as int);
        if i > 0 {
            proof {
                reveal_strlit(" ");
            }
            executable.append(" ");
        }
        executable.append(args[i].as_str());
        proof {
            let now = args@.subrange(0, i + 1);
            assert(now.drop_last() =~= before);
            assert(texts(now).drop_last() =~= texts(before));
            assert(texts(now).last() == args@[i as int]@);
            assert(texts(now).len() == i + 1);
            if i == 0 {
                assert(space_joined(texts(now)) == texts(now)[0]);
            }
        }
        i = i + 1;
    }
    assert(args@.subrange(0, args@.len() as int) =~= args@);
    let status: i32 = match code {
        Some(c) => c,
        None => -1,
    };
    Error::ExitStatus { executable, status }
}

} // verus!
