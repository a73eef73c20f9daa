use vstd::prelude::*;

use crate::color::ColorSignature;

verus! {

/// Declares std's `std::path::PathBuf` so that a configuration can carry the
/// script's path; nothing is relied on of what a path holds.
#[verifier::external_type_specification]
#[verifier::external_body]
pub struct ExPathBuf(std::path::PathBuf);

/// Settings of one run.
pub struct BotConfig {
    /// Where the event script is read from.
    pub script: std::path::PathBuf,
    /// How long to keep repeating the script, in seconds.
    pub runtime: u32,
    /// How far motion curves may bend away from the straight path, in percent.
    pub mouse_deviation: u32,
    /// Motion speed factor: larger values sample curves more sparsely.
    pub mouse_speed: u32,
    /// Whether debug logging is on.
    pub debug: bool,
}

impl BotConfig {
    pub fn new(
        script: std::path::PathBuf,
        runtime: u32,
        mouse_deviation: u32,
        mouse_speed: u32,
        debug: bool,
    ) -> (r: BotConfig)
        ensures
            r.script == script,
            r.runtime == runtime,
            r.mouse_deviation == mouse_deviation,
            r.mouse_speed == mouse_speed,
            r.debug == debug,
    {
        BotConfig { script, runtime, mouse_deviation, mouse_speed, debug }
    }
}

/// The action performed once the pointer reaches its target.
#[derive(Clone, Copy, Debug, PartialEq, Eq, Structural)]
pub enum ClickKind {
    LeftClick,
    RightClick,
    ShiftClick,
}

/// Errors that end a run.
#[derive(Clone, Copy, Debug, PartialEq, Eq, Structural)]
pub enum BotError {
    /// The display could not be opened.
    FatalCapture,
    /// The script names an action that does not exist.
    Configuration,
    /// The injector failed to move the pointer, click or press a key.
    InjectorFailure,
}

fn str_equals(a: &str, b: &str) -> (r: bool)
    ensures
        r == (a@ == b@),
{
    let n = a.unicode_len();
    if n != b.unicode_len() {
        return false;
    }
    let mut i: usize = 0;
    while i < n
        invariant
            n == a@.len(),
            n == b@.len(),
            i <= n,
            a@.take(i as int) == b@.take(i as int),
        decreases n - i,
    {
        if a.get_char(i) != b.get_char(i) {
            return false;
        }
        assert(a@.take(i + 1) =~= a@.take(i as int).push(a@[i as int]));
        assert(b@.take(i + 1) =~= b@.take(i as int).push(b@[i as int]));
        i = i + 1;
    }
    assert(a@ =~= a@.take(n as int));
    assert(b@ =~= b@.take(n as int));
    true
}

/// The action that a script token names, if any.
pub open spec fn spec_click_kind(token: Seq<char>) -> Option<ClickKind> {
    if token == "left_click"@ {
        Some(ClickKind::LeftClick)
    } else if token == "right_click"@ {
        Some(ClickKind::RightClick)
    } else if token == "shift_click"@ {
        Some(ClickKind::ShiftClick)
    } else {
        None
    }
}

/// Reads an action token of a script: `left_click`, `right_click` or
/// `shift_click`; any other token is a configuration error.
pub fn parse_click_kind(token: &str) -> (r: Result<ClickKind, BotError>)
    ensures
        r matches Ok(k) ==> spec_click_kind(token@) == Some(k),
        r is Err <==> spec_click_kind(token@) is None,
        r is Err ==> r == Err::<ClickKind, BotError>(BotError::Configuration),
{
    if str_equals(token, "left_click") {
        Ok(ClickKind::LeftClick)
    } else if str_equals(token, "right_click") {
        Ok(ClickKind::RightClick)
    } else if str_equals(token, "shift_click") {
        Ok(ClickKind::ShiftClick)
    } else {
        Err(BotError::Configuration)
    }
}

/// Move to a point of the given color and act on it, `count` times.
pub struct MouseEvent {
    pub id: String,
    /// Target color as red, green, blue.
    pub color: [u8; 3],
    pub action: ClickKind,
    /// Bounds of the random delay after each attempt, in milliseconds.
    pub delay_rng: [u32; 2],
    pub count: u32,
    /// Cut the wait short when the color disappears from the screen.
    pub skip_if_vanished: bool,
}

impl MouseEvent {
    pub fn signature(&self) -> (r: ColorSignature)
        ensures
            r == ColorSignature::spec_new(self.color),
    {
        ColorSignature::new(self.color)
    }
}

/// Press a key `count` times, waiting a random delay after each press.
pub struct KeyEvent {
    pub id: String,
    /// The key, in the injector's naming.
    pub key: String,
    /// Bounds of the random delay after each press, in milliseconds.
    pub delay_rng: [u32; 2],
    pub count: u32,
}

/// One entry of an event script.
pub enum Event {
    Pointer(MouseEvent),
    Key(KeyEvent),
}

impl Event {
    pub open spec fn delay_rng(&self) -> [u32; 2] {
        match self {
            Event::Pointer(m) => m.delay_rng,
            Event::Key(k) => k.delay_rng,
        }
    }

    pub open spec fn count(&self) -> u32 {
        match self {
            Event::Pointer(m) => m.count,
            Event::Key(k) => k.count,
        }
    }

    /// The delay range is ordered and the event runs at least once.
    pub open spec fn wf(&self) -> bool {
        &&& self.delay_rng()[0] <= self.delay_rng()[1]
        &&& self.count() >= 1
    }

    pub fn is_well_formed(&self) -> (r: bool)
        ensures
            r == self.wf(),
    {
        match self {
            Event::Pointer(m) => m.delay_rng[0] <= m.delay_rng[1] && m.count >= 1,
            Event::Key(k) => k.delay_rng[0] <= k.delay_rng[1] && k.count >= 1,
        }
    }
}

} // verus!
