//! The default key binding of each action.

use vstd::prelude::*;

verus! {

pub const TOGGLE_LOCK: &'static str = "Control+Shift+Alt+X";

pub const CENTER: &'static str = "Control+Shift+Alt+C";

pub const HIDE: &'static str = "Control+Shift+Alt+H";

pub const RESET: &'static str = "Control+Shift+Alt+R";

pub const CHANGE_DISPLAY: &'static str = "Control+Shift+Alt+M";

pub const DUPLICATE: &'static str = "Control+Shift+Alt+D";

pub const QUIT: &'static str = "Control+Shift+Alt+Q";

pub const MOVE_UP: &'static str = "Control+Shift+Alt+Up";

pub const MOVE_DOWN: &'static str = "Control+Shift+Alt+Down";

pub const MOVE_LEFT: &'static str = "Control+Shift+Alt+Left";

pub const MOVE_RIGHT: &'static str = "Control+Shift+Alt+Right";

pub const NEXT_WINDOW: &'static str = "Control+Shift+Alt+O";

} // verus!
