//! Terminal escape sequences for styles and colours.
use vstd::prelude::*;

verus! {

pub const ANSI_BOLD_ON: &'static str = "\x1b[1m";

pub const ANSI_BOLD_OFF: &'static str = "\x1b[22m";

pub const ANSI_ITALIC_ON: &'static str = "\x1b[3m";

pub const ANSI_ITALIC_OFF: &'static str = "\x1b[23m";

pub const ANSI_UNDERLINE_ON: &'static str = "\x1b[4m";

pub const ANSI_UNDERLINE_OFF: &'static str = "\x1b[24m";

pub const ANSI_STRIKETHROUGH_ON: &'static str = "\x1b[9m";

pub const ANSI_STRIKETHROUGH_OFF: &'static str = "\x1b[29m";

pub const ANSI_FG_CODE: &'static str = "\x1b[38;2;255;215;120m";

pub const ANSI_FG_LINK: &'static str = "\x1b[38;2;102;178;255m";

pub const ANSI_FG_LIGHT_GREEN: &'static str = "\x1b[38;2;170;255;170m";

pub const ANSI_FG_LIGHT_RED: &'static str = "\x1b[38;2;255;170;170m";

pub const ANSI_FG_SUBTLE: &'static str = "\x1b[38;2;180;190;205m";

pub const ANSI_FG_RESET: &'static str = "\x1b[39m";

pub const ANSI_RESET: &'static str = "\x1b[0m";

} // verus!
