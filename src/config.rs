use vstd::prelude::*;

use crate::hints::WinRecord;
use crate::parse::{parse_u32, parsed_u32, split_text};

verus! {

/// One window class that is never offered in the picker.
#[derive(Debug, PartialEq)]
pub struct BlacklistedItem {
    pub class: String,
}

/// The classes excluded from the picker, in configuration order.
#[derive(Debug, Default)]
pub struct BlacklistedItems {
    pub item: Vec<BlacklistedItem>,
}

impl BlacklistedItems {
    /// The excluded classes, as text.
    pub open spec fn classes(&self) -> Seq<Seq<char>> {
        self.item@.map_values(|i: BlacklistedItem| i.class@)
    }
}

/// Where the name of the previously active window is kept between runs.
#[derive(Debug, PartialEq)]
pub enum TMPFile {
    /// A file "winterreise" in the session's runtime directory.
    InXdgRuntime,
    /// The file "/tmp/winterreise".
    InTmp,
    /// A file at the given path.
    Custom(String),
}

/// The settings read at start-up.
#[derive(Debug)]
pub struct Config {
    pub tmpfile: TMPFile,
    /// Milliseconds before the first check that a switch took effect.
    pub delay: u64,
    pub space_between_buttons: i32,
    /// Width, in characters, beyond which window titles are shortened.
    pub maxwidth: usize,
    /// How many times a switch is checked and re-sent.
    pub attempts: u8,
    pub blacklist: BlacklistedItems,
}

/// The windows of one collection and the current desktop.
pub struct WM {
    pub wins: Vec<WinRecord>,
    pub desktop: u32,
}

/// The path of the file that keeps the previous window, given the runtime
/// directory of the session if there is one; none when the configuration asks for
/// the runtime directory and there is none.
pub open spec fn tmpfile_path(t: TMPFile, runtime_dir: Option<Seq<char>>) -> Option<Seq<char>> {
    match t {
        TMPFile::Custom(p) => Some(p@),
        TMPFile::InXdgRuntime => match runtime_dir {
            Some(d) => Some(d + "/winterreise"@),
            None => None,
        },
        TMPFile::InTmp => Some("/tmp/winterreise"@),
    }
}

pub open spec fn opt_text(o: Option<&str>) -> Option<Seq<char>> {
    match o {
        Some(d) => Some(d@),
        None => None,
    }
}

/// Resolves where the previous window is kept.
pub fn tmpfile_name(t: &TMPFile, runtime_dir: Option<&str>) -> (r: Option<String>)
    ensures
        r matches Some(p) ==> tmpfile_path(*t, opt_text(runtime_dir)) == Some(p@),
        r is None ==> tmpfile_path(*t, opt_text(runtime_dir)) is None,
{
    match t {
        TMPFile::Custom(p) => Some(p.clone()),
        TMPFile::InXdgRuntime => match runtime_dir {
            Some(d) => {
                let mut r = String::from_str(d);
                r.append("/winterreise");
                Some(r)
            },
            None => None,
        },
        TMPFile::InTmp => Some(String::from_str("/tmp/winterreise")),
    }
}

/// The first line of `s`, without its line ending.
pub open spec fn first_line(s: Seq<char>) -> Seq<char> {
    let line = split_text(s, '\n')[0];
    if line.len() > 0 && line.last() == '\r' {
        line.drop_last()
    } else {
        line
    }
}

/// Reads the handle of the previous window from the first line of the file that
/// keeps it.
pub fn previous_window(contents: &str) -> (r: Option<u32>)
    ensures
        r == parsed_u32(first_line(contents@)),
{
    let pieces = crate::parse::split_fields(contents, '\n');
    proof {
        crate::parse::lemma_split_nonempty(contents@, '\n');
    }
    assert(pieces@[0]@ == split_text(contents@, '\n')[0]) by {
        assert(pieces@.map_values(|f: String| f@)[0] == pieces@[0]@);
    }
    let line = pieces[0].as_str();
    let len = line.unicode_len();
    if len > 0 && line.get_char(len - 1) == '\r' {
        let trimmed = line.substring_char(0, len - 1);
        assert(trimmed@ =~= line@.drop_last());
        parse_u32(trimmed)
    } else {
        parse_u32(line)
    }
}

} // verus!
