//! The per-program host state: the memory bridge, the display device
//! registry, the guest-visible error register, and the outbox of events
//! for the supervising process.
//!
//! Display content is not stored here: the supervising process renders
//! it from the content-delta events. What the state tracks is the
//! device lifecycle, the registered guest callbacks, and which buttons
//! the last input report pressed.

use vstd::prelude::*;

use crate::errno::Errno;
use crate::events::{DisplayEvent, Event, LogEvent};
use crate::memory::RobotMemory;
use crate::text::{first_line, first_line_of, grapheme_prefix, take_graphemes};

verus! {

/// Greatest number of grapheme clusters one rendered display line
/// holds.
pub const LINE_WIDTH: usize = 40;

/// Number of display lines this device generation renders.
pub const DISPLAY_LINES: u8 = 8;

/// The set of pressed display buttons, as the bit mask the guest reads.
#[derive(Debug, Clone, Copy, PartialEq, Eq, Hash, Structural)]
pub struct LcdPressedButtons {
    /// One bit per button: right, center, left, lowest bit first.
    pub bits: i32,
}

impl LcdPressedButtons {
    /// No button pressed.
    pub fn empty() -> (r: LcdPressedButtons)
        ensures
            r.bits == 0,
    {
        LcdPressedButtons { bits: 0 }
    }

    /// The rightmost button alone.
    pub fn right() -> (r: LcdPressedButtons)
        ensures
            r.bits == 1,
    {
        LcdPressedButtons { bits: 1 }
    }

    /// The center button alone.
    pub fn center() -> (r: LcdPressedButtons)
        ensures
            r.bits == 2,
    {
        LcdPressedButtons { bits: 2 }
    }

    /// The leftmost button alone.
    pub fn left() -> (r: LcdPressedButtons)
        ensures
            r.bits == 4,
    {
        LcdPressedButtons { bits: 4 }
    }

    /// The mask as the guest-visible integer.
    pub fn bits(&self) -> (r: i32)
        ensures
            r == self.bits,
    {
        self.bits
    }

    /// Whether every button of `other` is pressed here too.
    pub fn contains(&self, other: LcdPressedButtons) -> (r: bool)
        ensures
            r == (self.bits & other.bits == other.bits),
    {
        self.bits & other.bits == other.bits
    }
}

/// The display lifecycle: only an enabled display carries a pressed
/// button set.
#[derive(Debug, Clone, Copy, PartialEq, Eq, Hash, Structural)]
pub enum LcdStatus {
    Disabled,
    Enabled(LcdPressedButtons),
}

impl LcdStatus {
    /// Whether the display is enabled.
    pub open spec fn spec_is_enabled(&self) -> bool {
        self matches LcdStatus::Enabled(_)
    }

    /// Returns whether the display is enabled.
    pub fn is_enabled(&self) -> (r: bool)
        ensures
            r == self.spec_is_enabled(),
    {
        matches!(self, LcdStatus::Enabled(_))
    }
}

impl Default for LcdStatus {
    /// A display starts disabled.
    fn default() -> (r: LcdStatus)
        ensures
            r == LcdStatus::Disabled,
    {
        LcdStatus::Disabled
    }
}

/// The display registry of this state: lifecycle plus the guest
/// callbacks registered per button, as guest function indices.
#[derive(Debug, Clone, Copy)]
pub struct LcdState {
    /// At most one guest callback per button.
    pub callbacks: [Option<u32>; 3],
    /// The device lifecycle, with the pressed set while enabled.
    pub status: LcdStatus,
}

impl Default for LcdState {
    /// A display registry starts disabled, with no callbacks.
    fn default() -> (r: LcdState)
        ensures
            r.status == LcdStatus::Disabled,
            forall|i: int| 0 <= i < 3 ==> r.callbacks@[i] is None,
    {
        LcdState { callbacks: [None; 3], status: LcdStatus::Disabled }
    }
}

/// Holds when `post` is `pre` with exactly one error log entry
/// appended.
pub open spec fn emitted_log_error(pre: Seq<Event>, post: Seq<Event>) -> bool {
    &&& post.len() == pre.len() + 1
    &&& (forall|i: int| 0 <= i < pre.len() ==> post[i] == pre[i])
    &&& (post.last() matches Event::Log(LogEvent::Error(_)))
}

/// Holds when `post` is `pre` with exactly one warning log entry
/// appended.
pub open spec fn emitted_log_warning(pre: Seq<Event>, post: Seq<Event>) -> bool {
    &&& post.len() == pre.len() + 1
    &&& (forall|i: int| 0 <= i < pre.len() ==> post[i] == pre[i])
    &&& (post.last() matches Event::Log(LogEvent::Warning(_)))
}

/// Holds when `post` is `pre` with exactly one content-delta event
/// appended, changing the single line `line` to `text`.
pub open spec fn emitted_line_update(
    pre: Seq<Event>,
    post: Seq<Event>,
    line: u8,
    text: Seq<char>,
) -> bool {
    &&& post.len() == pre.len() + 1
    &&& (forall|i: int| 0 <= i < pre.len() ==> post[i] == pre[i])
    &&& (post.last() matches Event::Display(DisplayEvent::Update { lines_delta })
        && lines_delta@.len() == 1 && lines_delta@[0].0 == line && lines_delta@[0].1@ == text)
}

/// What one call to the line-fitting step returns for `text`: the first
/// line, cut to the display width on a grapheme boundary.
pub open spec fn trimmed_text(text: Seq<char>) -> Seq<char> {
    grapheme_prefix(first_line_of(text), LINE_WIDTH as int)
}

/// How the fitted text relates to the first line it was cut from: a
/// prefix, and the whole of it when the line already fits the display
/// width. Every fitting call hands these facts on to its caller.
pub open spec fn trim_facts(text: Seq<char>) -> bool {
    &&& trimmed_text(text).len() <= first_line_of(text).len()
    &&& trimmed_text(text) == first_line_of(text).subrange(0, trimmed_text(text).len() as int)
    &&& (first_line_of(text).len() <= LINE_WIDTH ==> trimmed_text(text) == first_line_of(text))
}

/// The host state of one running guest program.
pub struct RobotState {
    /// The memory bridge, once the guest instance has exposed its
    /// memory.
    pub memory: Option<RobotMemory>,
    /// The display registry.
    pub lcd: LcdState,
    /// The error register the guest can query.
    pub errno: Errno,
    /// Events emitted and not yet drained, in emission order.
    pub events: Vec<Event>,
}

impl RobotState {
    /// A fresh state: no memory bridge yet, display disabled, no error,
    /// nothing emitted.
    pub fn new() -> (s: RobotState)
        ensures
            s.memory is None,
            s.lcd.status == LcdStatus::Disabled,
            forall|i: int| 0 <= i < 3 ==> s.lcd.callbacks@[i] is None,
            s.errno == Errno::Success,
            s.events@.len() == 0,
    {
        RobotState {
            memory: None,
            lcd: LcdState::default(),
            errno: Errno::Success,
            events: Vec::new(),
        }
    }

    /// The memory bridge; the guest instance must have been wired up.
    pub fn memory(&self) -> (m: &RobotMemory)
        requires
            self.memory is Some,
        ensures
            *m == self.memory->0,
    {
        self.memory.as_ref().unwrap()
    }

    /// The error register in the form the guest reads.
    pub fn get_errno(&self) -> (r: i32)
        ensures
            r == self.errno.spec_code() as i32,
    {
        self.errno.code() as i32
    }

    /// Emits one log entry.
    pub fn log(&mut self, message: LogEvent)
        ensures
            crate::events::emitted(old(self).events@, final(self).events@, Event::Log(message)),
            final(self).memory == old(self).memory,
            final(self).lcd == old(self).lcd,
            final(self).errno == old(self).errno,
    {
        self.events.push(Event::Log(message));
    }

    /// Emits an informational log entry.
    pub fn info(&mut self, message: String)
        ensures
            crate::events::emitted(
                old(self).events@,
                final(self).events@,
                Event::Log(LogEvent::Info(message)),
            ),
            final(self).memory == old(self).memory,
            final(self).lcd == old(self).lcd,
            final(self).errno == old(self).errno,
    {
        self.log(LogEvent::Info(message));
    }

    /// Emits a warning log entry.
    pub fn warn(&mut self, message: String)
        ensures
            crate::events::emitted(
                old(self).events@,
                final(self).events@,
                Event::Log(LogEvent::Warning(message)),
            ),
            final(self).memory == old(self).memory,
            final(self).lcd == old(self).lcd,
            final(self).errno == old(self).errno,
    {
        self.log(LogEvent::Warning(message));
    }

    /// Emits an error log entry.
    pub fn error(&mut self, message: String)
        ensures
            crate::events::emitted(
                old(self).events@,
                final(self).events@,
                Event::Log(LogEvent::Error(message)),
            ),
            final(self).memory == old(self).memory,
            final(self).lcd == old(self).lcd,
            final(self).errno == old(self).errno,
    {
        self.log(LogEvent::Error(message));
    }

    /// Enables the display. Already on: a warning is emitted and the
    /// call reports failure, changing nothing else. Otherwise the
    /// display becomes enabled with no button pressed and the
    /// initialization event is emitted.
    pub fn lcd_initialize(&mut self) -> (r: bool)
        ensures
            final(self).memory == old(self).memory,
            final(self).errno == old(self).errno,
            old(self).lcd.status.spec_is_enabled() ==> {
                &&& !r
                &&& final(self).lcd == old(self).lcd
                &&& emitted_log_warning(old(self).events@, final(self).events@)
            },
            !old(self).lcd.status.spec_is_enabled() ==> {
                &&& r
                &&& final(self).lcd.status == LcdStatus::Enabled(
                    (LcdPressedButtons { bits: 0 }),
                )
                &&& final(self).lcd.callbacks == old(self).lcd.callbacks
                &&& crate::events::emitted(
                    old(self).events@,
                    final(self).events@,
                    Event::Display(DisplayEvent::Init),
                )
            },
    {
        if self.lcd.status.is_enabled() {
            self.warn("Cannot initialize LCD when it's already on".to_owned());
            return false;
        }
        self.lcd.status = LcdStatus::Enabled(LcdPressedButtons::empty());
        self.events.push(Event::Display(DisplayEvent::Init));
        true
    }

    /// Disables the display. Already off: a warning is emitted and the
    /// "not initialized" code is returned, changing nothing else.
    /// Otherwise the display becomes disabled and the shutdown event is
    /// emitted.
    pub fn lcd_shutdown(&mut self) -> (r: Result<(), Errno>)
        ensures
            final(self).memory == old(self).memory,
            final(self).errno == old(self).errno,
            !old(self).lcd.status.spec_is_enabled() ==> {
                &&& r == Err::<(), Errno>(Errno::ENXIO)
                &&& final(self).lcd == old(self).lcd
                &&& emitted_log_warning(old(self).events@, final(self).events@)
            },
            old(self).lcd.status.spec_is_enabled() ==> {
                &&& r == Ok::<(), Errno>(())
                &&& final(self).lcd.status == LcdStatus::Disabled
                &&& final(self).lcd.callbacks == old(self).lcd.callbacks
                &&& crate::events::emitted(
                    old(self).events@,
                    final(self).events@,
                    Event::Display(DisplayEvent::Deinit),
                )
            },
    {
        if !self.lcd.status.is_enabled() {
            self.warn("Cannot shutdown LCD when it's already off".to_owned());
            return Err(Errno::ENXIO);
        }
        self.lcd.status = LcdStatus::Disabled;
        self.events.push(Event::Display(DisplayEvent::Deinit));
        Ok(())
    }

    /// Fits text onto a single rendered line: only the first line of
    /// the text, cut to the display width on a grapheme-cluster
    /// boundary. When anything was cut away, a warning is emitted;
    /// otherwise nothing changes.
    pub fn trim_text(&mut self, text: &str) -> (r: String)
        ensures
            r@ == trimmed_text(text@),
            trim_facts(text@),
            final(self).memory == old(self).memory,
            final(self).lcd == old(self).lcd,
            final(self).errno == old(self).errno,
            r@.len() == text@.len() ==> *final(self) == *old(self),
            r@.len() != text@.len() ==> emitted_log_warning(
                old(self).events@,
                final(self).events@,
            ),
    {
        let line = first_line(text);
        let trimmed = take_graphemes(line, LINE_WIDTH);

        if trimmed.as_str().unicode_len() < text.unicode_len() {
            self.warn("Trimming text printed to the LCD".to_owned());
        }
        trimmed
    }

    /// Prints text to one display line. While the display is off the
    /// "not initialized" code is returned; a line index outside the
    /// display earns the invalid-argument code; either failure emits
    /// one error log entry and nothing else. On success the text is
    /// fitted to the line (a warning precedes the delta if anything was
    /// cut) and exactly one content-delta event for that line is
    /// emitted.
    pub fn lcd_set_text(&mut self, line: i32, text: &str) -> (r: Result<(), Errno>)
        ensures
            final(self).memory == old(self).memory,
            final(self).errno == old(self).errno,
            final(self).lcd == old(self).lcd,
            !old(self).lcd.status.spec_is_enabled() ==> r == Err::<(), Errno>(Errno::ENXIO)
                && emitted_log_error(old(self).events@, final(self).events@),
            old(self).lcd.status.spec_is_enabled() && !(0 <= line < DISPLAY_LINES) ==> r == Err::<
                (),
                Errno,
            >(Errno::EINVAL) && emitted_log_error(old(self).events@, final(self).events@),
            old(self).lcd.status.spec_is_enabled() && 0 <= line < DISPLAY_LINES ==> {
                &&& r == Ok::<(), Errno>(())
                &&& trim_facts(text@)
                &&& if trimmed_text(text@).len() == text@.len() {
                    emitted_line_update(
                        old(self).events@,
                        final(self).events@,
                        line as u8,
                        trimmed_text(text@),
                    )
                } else {
                    &&& final(self).events@.len() == old(self).events@.len() + 2
                    &&& (forall|i: int|
                        0 <= i < old(self).events@.len() ==> final(self).events@[i] == old(
                            self,
                        ).events@[i])
                    &&& (final(self).events@[old(self).events@.len() as int] matches Event::Log(
                        LogEvent::Warning(_),
                    ))
                    &&& (final(self).events@.last() matches Event::Display(
                        DisplayEvent::Update { lines_delta },
                    ) && lines_delta@.len() == 1 && lines_delta@[0].0 == line as u8
                        && lines_delta@[0].1@ == trimmed_text(text@))
                }
            },
    {
        if !self.lcd.status.is_enabled() {
            self.error("Cannot print to the LCD when it's off".to_owned());
            return Err(Errno::ENXIO);
        }
        if line < 0 || line >= DISPLAY_LINES as i32 {
            self.error("Cannot print to an LCD line outside the display".to_owned());
            return Err(Errno::EINVAL);
        }

        let trimmed = self.trim_text(text);
        let mut lines_delta: Vec<(u8, String)> = Vec::new();
        lines_delta.push((line as u8, trimmed));
        self.events.push(Event::Display(DisplayEvent::Update { lines_delta }));
        Ok(())
    }

    /// Clears the whole display. While the display is off the "not
    /// initialized" code is returned with one error log entry; on
    /// success exactly one content-delta event is emitted that sets
    /// every line to empty.
    pub fn lcd_clear(&mut self) -> (r: Result<(), Errno>)
        ensures
            final(self).memory == old(self).memory,
            final(self).errno == old(self).errno,
            final(self).lcd == old(self).lcd,
            !old(self).lcd.status.spec_is_enabled() ==> r == Err::<(), Errno>(Errno::ENXIO)
                && emitted_log_error(old(self).events@, final(self).events@),
            old(self).lcd.status.spec_is_enabled() ==> {
                &&& r == Ok::<(), Errno>(())
                &&& final(self).events@.len() == old(self).events@.len() + 1
                &&& (forall|i: int|
                    0 <= i < old(self).events@.len() ==> final(self).events@[i] == old(
                        self,
                    ).events@[i])
                &&& (final(self).events@.last() matches Event::Display(
                    DisplayEvent::Update { lines_delta },
                ) && lines_delta@.len() == DISPLAY_LINES && (forall|k: int|
                    0 <= k < lines_delta@.len() ==> lines_delta@[k].0 == k
                        && lines_delta@[k].1@.len() == 0))
            },
    {
        if !self.lcd.status.is_enabled() {
            self.error("Cannot clear the LCD when it's disabled".to_owned());
            return Err(Errno::ENXIO);
        }

        let mut lines_delta: Vec<(u8, String)> = Vec::new();
        let mut i: u8 = 0;
        while i < DISPLAY_LINES
            invariant
                i <= DISPLAY_LINES,
                lines_delta@.len() == i,
                forall|k: int|
                    0 <= k < lines_delta@.len() ==> lines_delta@[k].0 == k && lines_delta@[k].1@.len()
                        == 0,
            decreases DISPLAY_LINES - i,
        {
            lines_delta.push((i, String::new()));
            i = i + 1;
        }
        self.events.push(Event::Display(DisplayEvent::Update { lines_delta }));
        Ok(())
    }

    /// The pressed-button mask the guest reads: a disabled display
    /// reports no buttons.
    pub fn lcd_read_buttons(&self) -> (r: i32)
        ensures
            r == match self.lcd.status {
                LcdStatus::Disabled => 0,
                LcdStatus::Enabled(b) => b.bits,
            },
    {
        match &self.lcd.status {
            LcdStatus::Disabled => 0,
            LcdStatus::Enabled(b) => b.bits,
        }
    }

    /// Registers the guest callback for one button, replacing any
    /// earlier one. The callback index was already resolved to a valid
    /// guest function by the executor; an unresolvable index is an
    /// integrity violation handled before this point.
    pub fn lcd_register_btn_callback(&mut self, button: usize, callback: u32)
        requires
            button < 3,
        ensures
            final(self).lcd.callbacks@ == old(self).lcd.callbacks@.update(
                button as int,
                Some(callback),
            ),
            final(self).lcd.status == old(self).lcd.status,
            final(self).memory == old(self).memory,
            final(self).errno == old(self).errno,
            final(self).events == old(self).events,
    {
        self.lcd.callbacks[button] = Some(callback);
    }

    /// Announces a new display background color. While the display is
    /// off, one error log entry is emitted and nothing else happens; on
    /// success exactly one color event is emitted.
    pub fn lcd_set_background(&mut self, rgba: i32)
        ensures
            final(self).memory == old(self).memory,
            final(self).errno == old(self).errno,
            final(self).lcd == old(self).lcd,
            !old(self).lcd.status.spec_is_enabled() ==> emitted_log_error(
                old(self).events@,
                final(self).events@,
            ),
            old(self).lcd.status.spec_is_enabled() ==> crate::events::emitted(
                old(self).events@,
                final(self).events@,
                Event::Display(DisplayEvent::SetBackgroundColor { rgba: rgba as u32 }),
            ),
    {
        if !self.lcd.status.is_enabled() {
            self.error("Cannot set the LCD background when it's disabled".to_owned());
            return ;
        }
        self.events.push(Event::Display(DisplayEvent::SetBackgroundColor { rgba: rgba as u32 }));
    }

    /// Announces a new display text color. While the display is off,
    /// one error log entry is emitted and nothing else happens; on
    /// success exactly one color event is emitted.
    pub fn lcd_set_text_color(&mut self, rgba: i32)
        ensures
            final(self).memory == old(self).memory,
            final(self).errno == old(self).errno,
            final(self).lcd == old(self).lcd,
            !old(self).lcd.status.spec_is_enabled() ==> emitted_log_error(
                old(self).events@,
                final(self).events@,
            ),
            old(self).lcd.status.spec_is_enabled() ==> crate::events::emitted(
                old(self).events@,
                final(self).events@,
                Event::Display(DisplayEvent::SetTextColor { rgba: rgba as u32 }),
            ),
    {
        if !self.lcd.status.is_enabled() {
            self.error("Cannot set the LCD text color when it's disabled".to_owned());
            return ;
        }
        self.events.push(Event::Display(DisplayEvent::SetTextColor { rgba: rgba as u32 }));
    }
}

impl Errno {
    /// Stores this code in the state's error register, touching nothing
    /// else.
    pub fn update_state(&self, state: &mut RobotState)
        ensures
            final(state).errno == *self,
            final(state).memory == old(state).memory,
            final(state).lcd == old(state).lcd,
            final(state).events == old(state).events,
    {
        state.errno = *self;
    }
}

} // verus!
