//! The character display peripheral.
//!
//! A display is either disabled or enabled; every content or button
//! operation other than `initialize` is rejected with a "not
//! initialized" code while it is disabled. Button input is
//! edge-triggered: a callback fires only when a button goes from
//! released to pressed between two consecutive reports.

use vstd::prelude::*;

use crate::events::SimulatorEvent;
use crate::memory::{MemoryHandle, RobotMemory};

verus! {

use vstd::string::StringSliceAdditionalSpecFns;
use vstd::string::StrSliceExecFns;
use vstd::utf8::{valid_utf8, decode_utf8};

/// Number of text lines the display offers.
pub const LCD_HEIGHT: u32 = 8;

/// Greatest number of characters one line can hold.
pub const LCD_WIDTH: u32 = 50;

/// Number of input buttons on the display.
pub const LCD_BUTTONS: usize = 3;

/// `initialize` was called while the display was already enabled.
#[derive(Debug, PartialEq, Eq, Structural)]
pub struct AlreadyInitializedError;

/// The display's drawing colors, as packed channel values.
pub struct LcdColors {
    pub background: u32,
    pub foreground: u32,
}

/// The emulated display: its text content, lifecycle flag, the last
/// reported button set, the registered button callbacks, and the outbox
/// of events not yet forwarded to the supervising process.
pub struct Lcd {
    /// Text content, one entry per line.
    pub lines: Vec<String>,
    /// Whether the display is enabled.
    pub initialized: bool,
    /// The button set of the most recent input report.
    pub button_presses: [bool; LCD_BUTTONS],
    /// At most one guest callback per button, as a guest function index.
    pub button_callbacks: [Option<u32>; LCD_BUTTONS],
    /// Events emitted and not yet drained, in emission order.
    pub events: Vec<SimulatorEvent>,
}

/// The text of each line, as a sequence of character sequences.
pub open spec fn lines_view(lines: Seq<String>) -> Seq<Seq<char>> {
    lines.map_values(|l: String| l@)
}

/// Holds when `post` is `pre` with exactly one content-delta event
/// appended, whose snapshot shows the line text `lines`.
pub open spec fn emitted_lcd_update(
    pre: Seq<SimulatorEvent>,
    post: Seq<SimulatorEvent>,
    lines: Seq<Seq<char>>,
) -> bool {
    &&& post.len() == pre.len() + 1
    &&& (forall|i: int| 0 <= i < pre.len() ==> post[i] == pre[i])
    &&& (post.last() matches SimulatorEvent::LcdUpdated(l) && lines_view(l@) == lines)
}

/// The guest callbacks owed for one input report, in button order:
/// exactly the buttons that went from released to pressed and have a
/// callback registered, looking at the first `n` buttons.
pub open spec fn edge_callbacks(
    prev: Seq<bool>,
    now: Seq<bool>,
    cbs: Seq<Option<u32>>,
    n: int,
) -> Seq<u32>
    decreases n,
{
    if n <= 0 {
        Seq::empty()
    } else {
        edge_callbacks(prev, now, cbs, n - 1) + (if now[n - 1] && !prev[n - 1] && cbs[n
            - 1] is Some {
            seq![cbs[n - 1]->Some_0]
        } else {
            Seq::empty()
        })
    }
}

/// Reporting the same button set twice fires no callback the second
/// time: an edge-triggered input needs a released-to-pressed transition,
/// and an unchanged report has none.
pub proof fn lemma_repeated_report_fires_nothing(
    now: Seq<bool>,
    cbs: Seq<Option<u32>>,
    n: int,
)
    ensures
        edge_callbacks(now, now, cbs, n).len() == 0,
    decreases n,
{
    if n > 0 {
        lemma_repeated_report_fires_nothing(now, cbs, n - 1);
    }
}

impl Lcd {
    /// A structurally sound display: the fixed line count, and no line
    /// wider than the display.
    pub open spec fn wf(self) -> bool {
        &&& self.lines@.len() == LCD_HEIGHT
        &&& (forall|i: int| 0 <= i < self.lines@.len() ==> self.lines@[i]@.len() <= LCD_WIDTH)
    }

    /// Creates a disabled display with empty lines, no buttons pressed,
    /// no callbacks, and nothing emitted yet.
    pub fn new() -> (lcd: Lcd)
        ensures
            lcd.wf(),
            !lcd.initialized,
            lcd.events@.len() == 0,
            forall|i: int| 0 <= i < lcd.lines@.len() ==> lcd.lines@[i]@.len() == 0,
            forall|i: int| 0 <= i < LCD_BUTTONS ==> !lcd.button_presses@[i],
            forall|i: int| 0 <= i < LCD_BUTTONS ==> lcd.button_callbacks@[i] is None,
    {
        Lcd {
            lines: empty_lines(),
            initialized: false,
            button_presses: [false; LCD_BUTTONS],
            button_callbacks: [None; LCD_BUTTONS],
            events: Vec::new(),
        }
    }

    /// Enables the display: fails if it is already enabled; otherwise
    /// clears the button state and emits the initialization event. The
    /// line content is kept, as it is only readable while enabled.
    pub fn initialize(&mut self) -> (r: Result<(), AlreadyInitializedError>)
        ensures
            old(self).initialized ==> r is Err && *final(self) == *old(self),
            !old(self).initialized ==> {
                &&& r is Ok
                &&& final(self).initialized
                &&& final(self).lines == old(self).lines
                &&& (forall|i: int| 0 <= i < LCD_BUTTONS ==> !final(self).button_presses@[i])
                &&& (forall|i: int|
                    0 <= i < LCD_BUTTONS ==> final(self).button_callbacks@[i] is None)
                &&& crate::events::emitted(
                    old(self).events@,
                    final(self).events@,
                    SimulatorEvent::LcdInitialized,
                )
            },
    {
        if self.initialized {
            return Err(AlreadyInitializedError);
        }
        self.initialized = true;
        self.button_presses = [false; LCD_BUTTONS];
        self.button_callbacks = [None; LCD_BUTTONS];
        self.events.push(SimulatorEvent::LcdInitialized);
        Ok(())
    }

    /// Replaces one line's text. Fails with the "not initialized" code
    /// while disabled, and with the invalid-argument code for a line
    /// index out of range or text wider than a line; a failed call
    /// changes nothing and emits nothing. On success exactly one
    /// content-delta event is emitted, with the new content.
    pub fn set_line(&mut self, line: i32, text: &str) -> (r: Result<(), i32>)
        requires
            old(self).wf(),
        ensures
            final(self).wf(),
            !old(self).initialized ==> r == Err::<(), i32>(
                crate::errno::Errno::ENXIO.spec_code() as i32,
            ) && *final(self) == *old(self),
            old(self).initialized && !(0 <= line < LCD_HEIGHT) ==> r == Err::<(), i32>(
                crate::errno::Errno::EINVAL.spec_code() as i32,
            ) && *final(self) == *old(self),
            old(self).initialized && 0 <= line < LCD_HEIGHT && text@.len() > LCD_WIDTH ==> r
                == Err::<(), i32>(crate::errno::Errno::EINVAL.spec_code() as i32) && *final(self)
                == *old(self),
            old(self).initialized && 0 <= line < LCD_HEIGHT && text@.len() <= LCD_WIDTH ==> {
                &&& r is Ok
                &&& lines_view(final(self).lines@) == lines_view(old(self).lines@).update(
                    line as int,
                    text@,
                )
                &&& final(self).initialized == old(self).initialized
                &&& final(self).button_presses == old(self).button_presses
                &&& final(self).button_callbacks == old(self).button_callbacks
                &&& emitted_lcd_update(
                    old(self).events@,
                    final(self).events@,
                    lines_view(final(self).lines@),
                )
            },
    {
        self.assert_initialized()?;
        self.assert_line_in_bounds(line)?;
        self.assert_text_length_in_bounds(text)?;

        self.lines.set(line as usize, text.to_owned());
        let snapshot = clone_lines(&self.lines);
        self.events.push(SimulatorEvent::LcdUpdated(snapshot));
        proof {
            assert(lines_view(self.lines@) =~= lines_view(old(self).lines@).update(
                line as int,
                text@,
            ));
        }
        Ok(())
    }

    /// Resets every line to empty. Fails with the "not initialized"
    /// code while disabled, changing nothing; on success exactly one
    /// content-delta event is emitted, showing all lines empty.
    pub fn clear(&mut self) -> (r: Result<(), i32>)
        requires
            old(self).wf(),
        ensures
            final(self).wf(),
            !old(self).initialized ==> r == Err::<(), i32>(
                crate::errno::Errno::ENXIO.spec_code() as i32,
            ) && *final(self) == *old(self),
            old(self).initialized ==> {
                &&& r is Ok
                &&& final(self).lines@.len() == old(self).lines@.len()
                &&& (forall|i: int|
                    0 <= i < final(self).lines@.len() ==> final(self).lines@[i]@.len() == 0)
                &&& final(self).initialized == old(self).initialized
                &&& final(self).button_presses == old(self).button_presses
                &&& final(self).button_callbacks == old(self).button_callbacks
                &&& emitted_lcd_update(
                    old(self).events@,
                    final(self).events@,
                    lines_view(final(self).lines@),
                )
            },
    {
        self.assert_initialized()?;
        self.lines = empty_lines();
        let snapshot = clone_lines(&self.lines);
        self.events.push(SimulatorEvent::LcdUpdated(snapshot));
        Ok(())
    }

    /// Resets one line to empty. Fails with the "not initialized" code
    /// while disabled and with the invalid-argument code for an index
    /// out of range, changing nothing; on success exactly one
    /// content-delta event is emitted.
    pub fn clear_line(&mut self, line: i32) -> (r: Result<(), i32>)
        requires
            old(self).wf(),
        ensures
            final(self).wf(),
            !old(self).initialized ==> r == Err::<(), i32>(
                crate::errno::Errno::ENXIO.spec_code() as i32,
            ) && *final(self) == *old(self),
            old(self).initialized && !(0 <= line < LCD_HEIGHT) ==> r == Err::<(), i32>(
                crate::errno::Errno::EINVAL.spec_code() as i32,
            ) && *final(self) == *old(self),
            old(self).initialized && 0 <= line < LCD_HEIGHT ==> {
                &&& r is Ok
                &&& lines_view(final(self).lines@) == lines_view(old(self).lines@).update(
                    line as int,
                    Seq::<char>::empty(),
                )
                &&& final(self).initialized == old(self).initialized
                &&& final(self).button_presses == old(self).button_presses
                &&& final(self).button_callbacks == old(self).button_callbacks
                &&& emitted_lcd_update(
                    old(self).events@,
                    final(self).events@,
                    lines_view(final(self).lines@),
                )
            },
    {
        self.assert_initialized()?;
        self.assert_line_in_bounds(line)?;

        self.lines.set(line as usize, String::new());
        let snapshot = clone_lines(&self.lines);
        self.events.push(SimulatorEvent::LcdUpdated(snapshot));
        proof {
            assert(lines_view(self.lines@) =~= lines_view(old(self).lines@).update(
                line as int,
                Seq::<char>::empty(),
            ));
        }
        Ok(())
    }

    /// Registers the guest callback for one button, replacing any
    /// earlier one. Fails with the "not initialized" code while
    /// disabled, changing nothing.
    pub fn set_btn_press_callback(&mut self, button: usize, callback: u32) -> (r: Result<
        (),
        i32,
    >)
        requires
            button < LCD_BUTTONS,
        ensures
            !old(self).initialized ==> r == Err::<(), i32>(
                crate::errno::Errno::ENXIO.spec_code() as i32,
            ) && *final(self) == *old(self),
            old(self).initialized ==> {
                &&& r is Ok
                &&& final(self).button_callbacks@ == old(self).button_callbacks@.update(
                    button as int,
                    Some(callback),
                )
                &&& final(self).lines == old(self).lines
                &&& final(self).initialized == old(self).initialized
                &&& final(self).button_presses == old(self).button_presses
                &&& final(self).events == old(self).events
            },
    {
        self.assert_initialized()?;
        self.button_callbacks[button] = Some(callback);
        Ok(())
    }

    /// Takes one input report. Replaces the stored button set with the
    /// reported one and returns the guest callbacks owed for this
    /// report, in button order: exactly the buttons that went from
    /// released to pressed and have a callback. The caller invokes each
    /// returned callback in order, awaiting one before the next.
    pub fn press(&mut self, buttons: [bool; LCD_BUTTONS]) -> (cbs: Vec<u32>)
        ensures
            final(self).button_presses == buttons,
            final(self).lines == old(self).lines,
            final(self).initialized == old(self).initialized,
            final(self).button_callbacks == old(self).button_callbacks,
            final(self).events == old(self).events,
            cbs@ == edge_callbacks(
                old(self).button_presses@,
                buttons@,
                old(self).button_callbacks@,
                LCD_BUTTONS as int,
            ),
    {
        let mut cbs: Vec<u32> = Vec::new();
        let mut i: usize = 0;
        while i < LCD_BUTTONS
            invariant
                i <= LCD_BUTTONS,
                cbs@ == edge_callbacks(
                    self.button_presses@,
                    buttons@,
                    self.button_callbacks@,
                    i as int,
                ),
            decreases LCD_BUTTONS - i,
        {
            if buttons[i] && !self.button_presses[i] {
                if let Some(cb) = self.button_callbacks[i] {
                    cbs.push(cb);
                }
            }
            i = i + 1;
        }
        self.button_presses = buttons;
        cbs
    }

    /// Echoes a range of guest memory into one display line: the bytes
    /// are decoded as text (valid UTF-8 decodes exactly; invalid
    /// sequences are replaced) and printed like `set_line`. Text the
    /// guest stored as valid UTF-8 therefore reads back from the
    /// display byte-identical, as long as it fits on the line.
    pub fn set_line_from_memory(
        &mut self,
        mem: &RobotMemory,
        handle: &MemoryHandle,
        line: i32,
    ) -> (r: Result<(), i32>)
        requires
            old(self).wf(),
            handle.in_bounds(*mem),
        ensures
            final(self).wf(),
            ({
                let bytes = mem.data@.subrange(
                    handle.location.offset as int,
                    handle.location.offset + handle.location.length,
                );
                let text = crate::text::utf8_lossy(bytes);
                &&& (valid_utf8(bytes) ==> text == decode_utf8(bytes))
                &&& (!old(self).initialized ==> r == Err::<(), i32>(
                    crate::errno::Errno::ENXIO.spec_code() as i32,
                ) && *final(self) == *old(self))
                &&& (old(self).initialized && !(0 <= line < LCD_HEIGHT) ==> r == Err::<(), i32>(
                    crate::errno::Errno::EINVAL.spec_code() as i32,
                ) && *final(self) == *old(self))
                &&& (old(self).initialized && 0 <= line < LCD_HEIGHT && text.len() > LCD_WIDTH
                    ==> r == Err::<(), i32>(crate::errno::Errno::EINVAL.spec_code() as i32)
                    && *final(self) == *old(self))
                &&& (old(self).initialized && 0 <= line < LCD_HEIGHT && text.len() <= LCD_WIDTH
                    ==> {
                    &&& r is Ok
                    &&& lines_view(final(self).lines@) == lines_view(old(self).lines@).update(
                        line as int,
                        text,
                    )
                    &&& (valid_utf8(bytes) ==> lines_view(final(self).lines@)[line as int]
                        == decode_utf8(bytes))
                    &&& emitted_lcd_update(
                        old(self).events@,
                        final(self).events@,
                        lines_view(final(self).lines@),
                    )
                })
            }),
    {
        let text = handle.to_text(mem);
        self.set_line(line, text.as_str())
    }

    /// Stores text in guest memory and echoes that range back onto a
    /// display line: the round trip through the guest's memory is
    /// lossless, so the line then holds the text itself, as long as the
    /// display is enabled, the line exists, and the text fits its
    /// width. The handle's range is written in every case.
    pub fn store_and_echo(
        &mut self,
        mem: &mut RobotMemory,
        handle: &MemoryHandle,
        text: &str,
        line: i32,
    ) -> (r: Result<(), i32>)
        requires
            old(self).wf(),
            handle.in_bounds(*old(mem)),
            text.spec_bytes().len() == handle.location.length,
        ensures
            final(self).wf(),
            crate::memory::written(
                old(mem).data@,
                final(mem).data@,
                handle.location.offset as int,
                text.spec_bytes(),
            ),
            final(mem).dealloc_requests == old(mem).dealloc_requests,
            !old(self).initialized ==> r == Err::<(), i32>(
                crate::errno::Errno::ENXIO.spec_code() as i32,
            ) && *final(self) == *old(self),
            old(self).initialized && !(0 <= line < LCD_HEIGHT) ==> r == Err::<(), i32>(
                crate::errno::Errno::EINVAL.spec_code() as i32,
            ) && *final(self) == *old(self),
            old(self).initialized && 0 <= line < LCD_HEIGHT && text@.len() > LCD_WIDTH ==> r
                == Err::<(), i32>(crate::errno::Errno::EINVAL.spec_code() as i32) && *final(self)
                == *old(self),
            old(self).initialized && 0 <= line < LCD_HEIGHT && text@.len() <= LCD_WIDTH ==> {
                &&& r is Ok
                &&& lines_view(final(self).lines@) == lines_view(old(self).lines@).update(
                    line as int,
                    text@,
                )
                &&& emitted_lcd_update(
                    old(self).events@,
                    final(self).events@,
                    lines_view(final(self).lines@),
                )
            },
    {
        let bytes = text.as_bytes_vec();
        handle.write(mem, &bytes, 0);
        proof {
            crate::memory::lemma_memory_text_roundtrip(
                old(mem).data@,
                mem.data@,
                handle.location.offset as int,
                text@,
            );
        }
        self.set_line_from_memory(mem, handle, line)
    }

    /// Rejects the call with the "not initialized" code while the
    /// display is disabled.
    fn assert_initialized(&self) -> (r: Result<(), i32>)
        ensures
            r == if self.initialized {
                Ok::<(), i32>(())
            } else {
                Err::<(), i32>(crate::errno::Errno::ENXIO.spec_code() as i32)
            },
    {
        if !self.initialized {
            return Err(crate::errno::Errno::ENXIO.code() as i32);
        }
        Ok(())
    }

    /// Rejects a line index outside the display with the
    /// invalid-argument code.
    fn assert_line_in_bounds(&self, line: i32) -> (r: Result<(), i32>)
        ensures
            r == if 0 <= line < LCD_HEIGHT {
                Ok::<(), i32>(())
            } else {
                Err::<(), i32>(crate::errno::Errno::EINVAL.spec_code() as i32)
            },
    {
        if line < 0 || line >= LCD_HEIGHT as i32 {
            return Err(crate::errno::Errno::EINVAL.code() as i32);
        }
        Ok(())
    }

    /// Rejects text wider than one display line with the
    /// invalid-argument code.
    fn assert_text_length_in_bounds(&self, text: &str) -> (r: Result<(), i32>)
        ensures
            r == if text@.len() <= LCD_WIDTH {
                Ok::<(), i32>(())
            } else {
                Err::<(), i32>(crate::errno::Errno::EINVAL.spec_code() as i32)
            },
    {
        if text.unicode_len() > LCD_WIDTH as usize {
            return Err(crate::errno::Errno::EINVAL.code() as i32);
        }
        Ok(())
    }
}

/// A fresh set of display lines, all empty.
fn empty_lines() -> (lines: Vec<String>)
    ensures
        lines@.len() == LCD_HEIGHT,
        forall|i: int| 0 <= i < lines@.len() ==> lines@[i]@.len() == 0,
{
    let mut lines: Vec<String> = Vec::new();
    let mut i: usize = 0;
    while i < LCD_HEIGHT as usize
        invariant
            i <= LCD_HEIGHT,
            lines@.len() == i,
            forall|j: int| 0 <= j < lines@.len() ==> lines@[j]@.len() == 0,
        decreases LCD_HEIGHT - i,
    {
        lines.push(String::new());
        i = i + 1;
    }
    lines
}

/// A copy of the line texts, used for content-delta snapshots.
fn clone_lines(lines: &Vec<String>) -> (out: Vec<String>)
    ensures
        lines_view(out@) == lines_view(lines@),
{
    let out = lines.clone();
    proof {
        assert forall|i: int| 0 <= i < lines@.len() implies out@[i] == lines@[i] by {
            assert(vstd::pervasive::cloned::<String>(lines@[i], out@[i]));
        }
        assert(lines_view(out@) =~= lines_view(lines@));
    }
    out
}

} // verus!
