//! The startup configuration: plain values consumed once at construction.
//!
//! Reading the configuration file and decoding it live outside this crate;
//! what stands here is the configuration object itself — window geometry,
//! display durations, per-row flags — together with the placement arithmetic
//! and the expansion of a user-written style-sheet path.

use vstd::prelude::*;
use vstd::string::StrSliceExecFns;
use vstd::string::StringExecFns;

verus! {

/// Where the notification window sits horizontally: a margin measured from
/// the left or from the right edge of the monitor.
#[derive(Clone, Copy, Debug, PartialEq, Eq, Structural)]
pub enum MarginHoriz {
    Left(i32),
    Right(i32),
}

/// Where the notification window sits vertically: a margin measured from
/// the top or from the bottom edge of the monitor.
#[derive(Clone, Copy, Debug, PartialEq, Eq, Structural)]
pub enum MarginVert {
    Top(i32),
    Bottom(i32),
}

/// Geometry and presentation of the notification window.
pub struct Window {
    pub width: i32,
    pub height: i32,
    pub margin_horiz: MarginHoriz,
    pub margin_vert: MarginVert,
    /// How long the window stays up, in milliseconds.
    pub duration: u32,
    pub padding: u32,
    pub spacing: u32,
    /// A user style sheet to load, if any.
    pub css: Option<String>,
}

/// Presentation of the boolean/status row.
#[derive(Clone, Copy, Debug, PartialEq, Eq, Structural)]
pub struct Boolean {
    pub show_label: bool,
}

/// Presentation of the percentage row.
#[derive(Clone, Copy, Debug, PartialEq, Eq, Structural)]
pub struct Percentage {
    pub show_numeric: bool,
}

/// Everything the application is configured with, built once at startup and
/// passed into the components that need it.
pub struct Config {
    pub window: Window,
    pub boolean: Boolean,
    pub percentage: Percentage,
}

/// The offset of the window edge from the anchor's zero side: a margin
/// anchored at the near edge is the offset itself, one anchored at the far
/// edge is measured back from `distance`, the width left over for placement.
pub open spec fn horiz_offset(margin: MarginHoriz, distance: int) -> int {
    match margin {
        MarginHoriz::Left(v) => v as int,
        MarginHoriz::Right(v) => distance - v,
    }
}

/// As [`horiz_offset`], for the vertical axis.
pub open spec fn vert_offset(margin: MarginVert, distance: int) -> int {
    match margin {
        MarginVert::Top(v) => v as int,
        MarginVert::Bottom(v) => distance - v,
    }
}

impl Window {
    /// The top-left position of the window on a monitor of the given size:
    /// each margin is measured from its own anchor edge, so a margin from
    /// the right or bottom is converted to an offset from the left or top
    /// using the room the monitor leaves for the window.
    pub fn position(&self, monitor_width: i32, monitor_height: i32) -> (pos: (i32, i32))
        requires
            i32::MIN <= monitor_width - self.width <= i32::MAX,
            i32::MIN <= monitor_height - self.height <= i32::MAX,
            i32::MIN <= horiz_offset(self.margin_horiz, monitor_width - self.width) <= i32::MAX,
            i32::MIN <= vert_offset(self.margin_vert, monitor_height - self.height) <= i32::MAX,
        ensures
            pos.0 == horiz_offset(self.margin_horiz, monitor_width - self.width),
            pos.1 == vert_offset(self.margin_vert, monitor_height - self.height),
    {
        let dx = monitor_width - self.width;
        let dy = monitor_height - self.height;
        let x = match self.margin_horiz {
            MarginHoriz::Left(v) => v,
            MarginHoriz::Right(v) => dx - v,
        };
        let y = match self.margin_vert {
            MarginVert::Top(v) => v,
            MarginVert::Bottom(v) => dy - v,
        };
        (x, y)
    }
}

/// What a user-written path means once expanded: a leading `~/` is replaced
/// by the home directory, a path that is not absolute is resolved against
/// the working directory (dropping a leading `./`), and an absolute path
/// stands as written. A `/` separator is inserted at each junction.
pub open spec fn expanded_path(path: Seq<char>, home: Seq<char>, working_dir: Seq<char>) -> Seq<
    char,
> {
    if path.len() >= 2 && path[0] == '~' && path[1] == '/' {
        home + seq!['/'] + path.skip(2)
    } else if !(path.len() >= 1 && path[0] == '/') {
        if path.len() >= 2 && path[0] == '.' && path[1] == '/' {
            working_dir + seq!['/'] + path.skip(2)
        } else {
            working_dir + seq!['/'] + path
        }
    } else {
        path
    }
}

/// Expand a user-written path against the home and working directories, as
/// [`expanded_path`] says.
pub fn expand_path(path: &str, home: &str, working_dir: &str) -> (r: String)
    ensures
        r@ == expanded_path(path@, home@, working_dir@),
{
    proof {
        reveal_strlit("/");
    }
    let n = path.unicode_len();
    if n >= 2 && path.get_char(0) == '~' && path.get_char(1) == '/' {
        let mut out = String::from_str(home);
        out.append("/");
        out.append(path.substring_char(2, n));
        proof {
            assert(out@ =~= expanded_path(path@, home@, working_dir@));
        }
        out
    } else if !(n >= 1 && path.get_char(0) == '/') {
        let mut out = String::from_str(working_dir);
        out.append("/");
        if n >= 2 && path.get_char(0) == '.' && path.get_char(1) == '/' {
            out.append(path.substring_char(2, n));
        } else {
            out.append(path.substring_char(0, n));
        }
        proof {
            assert(path@.subrange(0, path@.len() as int) =~= path@);
            assert(out@ =~= expanded_path(path@, home@, working_dir@));
        }
        out
    } else {
        let out = String::from_str(path);
        out
    }
}

} // verus!
