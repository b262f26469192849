//! Input-method (IME) language state: the decisions of reading and setting
//! it, as step functions. The caller performs each read or write that a step
//! asks for against the focused window and hands the result to the next step.
use vstd::prelude::*;

verus! {

/// Keyboard layout of Simplified Chinese.
pub const CHINESE_LAYOUT: u32 = 0x08040804;

/// Keyboard layout of Japanese.
pub const JAPANESE_LAYOUT: u32 = 0x04110411;

/// Conversion mode written when switching a Simplified Chinese layout to native input.
pub const CHINESE_CONVERSION_MODE: isize = 1025;

/// Conversion mode written when switching a Japanese layout to native input.
pub const JAPANESE_CONVERSION_MODE: isize = 9;

/// The input mode read from a window: the raw code and whether native
/// (non-Latin) input is on.
#[derive(Debug, Clone, Copy, PartialEq, Eq, Structural)]
pub struct IMEResponse {
    pub code: isize,
    pub is_cn: bool,
}

/// Why an input-mode operation could not proceed.
#[derive(Debug, Clone, Copy, PartialEq, Eq, Structural)]
pub enum ImeError {
    /// No window handle was given and no window has the focus.
    NoFocusedWindow,
}

/// How the raw IME values are interpreted.
///
/// With every mode at its default (`0` and `None`) the open status decides,
/// and the low bit of the conversion mode tells native input. Otherwise the
/// conversion mode is checked first, then the open status, against the
/// configured values.
#[derive(Debug, Clone, Copy, PartialEq, Eq, Structural)]
pub struct IMEControl {
    /// Milliseconds to wait for the IME window to answer a message.
    pub check_timeout: u32,
    /// Whether the configured values describe native input (else Latin input).
    pub base_status: bool,
    pub status_mode: i32,
    pub conversion_mode: i32,
    pub even_status_mode: Option<bool>,
    pub even_conversion_mode: Option<bool>,
}

/// A value that the caller reads from the IME window.
#[derive(Debug, Clone, Copy, PartialEq, Eq, Structural)]
pub enum ImeRead {
    OpenStatus,
    ConversionMode,
}

/// What reading the input mode needs next: a value, or nothing more.
#[derive(Debug, Clone, Copy, PartialEq, Eq, Structural)]
pub enum ModeStep {
    Read(ImeRead),
    Answer(IMEResponse),
}

/// How far setting the input mode has come, and what was read on the way.
#[derive(Debug, Clone, Copy, PartialEq, Eq, Structural)]
pub enum SetProgress {
    Begin,
    OpenStatusWritten,
    LayoutRead(isize),
    ConversionWritten,
}

/// What setting the input mode does next.
#[derive(Debug, Clone, Copy, PartialEq, Eq, Structural)]
pub enum ImeCommand {
    SetOpenStatus(bool),
    ReadKeyboardLayout,
    SetConversionMode(isize),
    Finished,
}

/// Whether the lowest bit of `v` is set.
pub open spec fn low_bit(v: isize) -> bool {
    (v & 1) != 0
}

/// Whether every interpretation setting is at its default.
pub open spec fn is_plain(c: IMEControl) -> bool {
    c.status_mode == 0 && c.even_status_mode is None && c.conversion_mode == 0
        && c.even_conversion_mode is None
}

/// The answer that a raw value `v` gives against a parity setting `even`
/// and a mode setting `mode`, if either is set. `keep_code` says whether a
/// mode match reports the raw code (else `0`) when native input is the base.
pub open spec fn judge(base_status: bool, even: Option<bool>, mode: i32, v: isize, keep_code: bool) -> Option<IMEResponse> {
    if base_status {
        match even {
            Some(e) => Some(IMEResponse { code: v, is_cn: e != low_bit(v) }),
            None => if mode != 0 {
                Some(IMEResponse { code: if keep_code { v } else { 0 }, is_cn: v as int == mode as int })
            } else {
                None
            },
        }
    } else {
        match even {
            Some(e) => Some(IMEResponse { code: v, is_cn: e && low_bit(v) }),
            None => if mode != 0 {
                Some(IMEResponse { code: 0, is_cn: v as int != mode as int })
            } else {
                None
            },
        }
    }
}

/// The next step of reading the input mode, given the values read so far.
pub open spec fn mode_step(c: IMEControl, open: Option<isize>, conversion: Option<isize>) -> ModeStep {
    if is_plain(c) {
        match open {
            None => ModeStep::Read(ImeRead::OpenStatus),
            Some(o) => if o == 0 {
                ModeStep::Answer(IMEResponse { code: 0, is_cn: false })
            } else {
                match conversion {
                    None => ModeStep::Read(ImeRead::ConversionMode),
                    Some(v) => ModeStep::Answer(IMEResponse { code: v, is_cn: low_bit(v) }),
                }
            },
        }
    } else {
        match conversion {
            None => ModeStep::Read(ImeRead::ConversionMode),
            Some(v) => match judge(c.base_status, c.even_conversion_mode, c.conversion_mode, v, true) {
                Some(r) => ModeStep::Answer(r),
                None => match open {
                    None => ModeStep::Read(ImeRead::OpenStatus),
                    Some(o) => match judge(c.base_status, c.even_status_mode, c.status_mode, o, false) {
                        Some(r) => ModeStep::Answer(r),
                        None => ModeStep::Answer(IMEResponse { code: 0, is_cn: false }),
                    },
                },
            },
        }
    }
}

/// The next command of setting the input mode to native (`is_cn`) or Latin.
pub open spec fn set_step(is_cn: bool, p: SetProgress) -> ImeCommand {
    match p {
        SetProgress::Begin => ImeCommand::SetOpenStatus(is_cn),
        SetProgress::OpenStatusWritten => if is_cn {
            ImeCommand::ReadKeyboardLayout
        } else {
            ImeCommand::Finished
        },
        SetProgress::LayoutRead(l) => if l as u32 == CHINESE_LAYOUT {
            ImeCommand::SetConversionMode(CHINESE_CONVERSION_MODE)
        } else if l as u32 == JAPANESE_LAYOUT {
            ImeCommand::SetConversionMode(JAPANESE_CONVERSION_MODE)
        } else {
            ImeCommand::Finished
        },
        SetProgress::ConversionWritten => ImeCommand::Finished,
    }
}

/// Reading the input mode needs at most the two values: once both are read
/// it answers, and outside the default interpretation that answer comes from
/// a configured value, never from the fallback.
pub proof fn lemma_read_completes(c: IMEControl, open: isize, conversion: isize)
    ensures
        mode_step(c, Some(open), Some(conversion)) is Answer,
        !is_plain(c) ==> judge(c.base_status, c.even_conversion_mode, c.conversion_mode, conversion, true) is Some
            || judge(c.base_status, c.even_status_mode, c.status_mode, open, false) is Some,
{
}

fn judge_value(base_status: bool, even: Option<bool>, mode: i32, v: isize, keep_code: bool) -> (r: Option<IMEResponse>)
    ensures
        r == judge(base_status, even, mode, v, keep_code),
{
    let flag = (v & 1) != 0;
    if base_status {
        if let Some(e) = even {
            return Some(IMEResponse { code: v, is_cn: e != flag });
        }
        if mode != 0 {
            return Some(IMEResponse { code: if keep_code { v } else { 0 }, is_cn: v == mode as isize });
        }
    } else {
        if let Some(e) = even {
            return Some(IMEResponse { code: v, is_cn: e && flag });
        }
        if mode != 0 {
            return Some(IMEResponse { code: 0, is_cn: v != mode as isize });
        }
    }
    None
}

impl IMEControl {
    /// A control with the given message timeout and base, every mode at its default.
    pub fn new(check_timeout: u32, base_status: bool) -> (c: IMEControl)
        ensures
            c.check_timeout == check_timeout,
            c.base_status == base_status,
            is_plain(c),
    {
        IMEControl {
            check_timeout,
            base_status,
            status_mode: 0,
            conversion_mode: 0,
            even_status_mode: None,
            even_conversion_mode: None,
        }
    }

    /// The window to work on: `hwnd` if given, else the focused window, if any.
    pub fn ensure_hwnd(hwnd: Option<isize>, focused: Option<isize>) -> (r: Result<isize, ImeError>)
        ensures
            r == match hwnd {
                Some(h) => Ok(h),
                None => match focused {
                    Some(f) => Ok(f),
                    None => Err(ImeError::NoFocusedWindow),
                },
            },
    {
        match hwnd {
            Some(h) => Ok(h),
            None => match focused {
                Some(f) => Ok(f),
                None => Err(ImeError::NoFocusedWindow),
            },
        }
    }

    /// The next step of reading the input mode, given the open status and
    /// conversion mode read so far (`None` where not read yet).
    pub fn get_input_mode(&self, open: Option<isize>, conversion: Option<isize>) -> (r: ModeStep)
        ensures
            r == mode_step(*self, open, conversion),
    {
        let plain = self.status_mode == 0 && self.even_status_mode.is_none()
            && self.conversion_mode == 0 && self.even_conversion_mode.is_none();
        if plain {
            match open {
                None => ModeStep::Read(ImeRead::OpenStatus),
                Some(o) => if o == 0 {
                    ModeStep::Answer(IMEResponse { code: 0, is_cn: false })
                } else {
                    match conversion {
                        None => ModeStep::Read(ImeRead::ConversionMode),
                        Some(v) => ModeStep::Answer(IMEResponse { code: v, is_cn: (v & 1) != 0 }),
                    }
                },
            }
        } else {
            match conversion {
                None => ModeStep::Read(ImeRead::ConversionMode),
                Some(v) => match judge_value(self.base_status, self.even_conversion_mode, self.conversion_mode, v, true) {
                    Some(r) => ModeStep::Answer(r),
                    None => match open {
                        None => ModeStep::Read(ImeRead::OpenStatus),
                        Some(o) => match judge_value(self.base_status, self.even_status_mode, self.status_mode, o, false) {
                            Some(r) => ModeStep::Answer(r),
                            None => ModeStep::Answer(IMEResponse { code: 0, is_cn: false }),
                        },
                    },
                },
            }
        }
    }

    /// The next command of setting the input mode to native (`is_cn`) or
    /// Latin, given how far it has come.
    pub fn set_input_mode(&self, is_cn: bool, progress: SetProgress) -> (r: ImeCommand)
        ensures
            r == set_step(is_cn, progress),
    {
        match progress {
            SetProgress::Begin => ImeCommand::SetOpenStatus(is_cn),
            SetProgress::OpenStatusWritten => if is_cn {
                ImeCommand::ReadKeyboardLayout
            } else {
                ImeCommand::Finished
            },
            SetProgress::LayoutRead(l) => {
                let layout = l as u32;
                if layout == CHINESE_LAYOUT {
                    ImeCommand::SetConversionMode(CHINESE_CONVERSION_MODE)
                } else if layout == JAPANESE_LAYOUT {
                    ImeCommand::SetConversionMode(JAPANESE_CONVERSION_MODE)
                } else {
                    ImeCommand::Finished
                }
            },
            SetProgress::ConversionWritten => ImeCommand::Finished,
        }
    }
}

impl Default for IMEControl {
    fn default() -> (c: IMEControl)
        ensures
            c.check_timeout == 1000,
            !c.base_status,
            is_plain(c),
    {
        IMEControl::new(1000, false)
    }
}

} // verus!
