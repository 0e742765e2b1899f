//! Frame capture: numbering and naming of saved frames.
//!
//! Once the record key has been pressed, every frame is saved to a numbered
//! file until the capture limit is reached.  File names carry the frame
//! number zero-padded to three digits, so they sort in capture order.

use vstd::prelude::*;
use crate::params::CAPTURE_LIMIT;

verus! {

/// The decimal digit character for `d` (0 through 9).
pub open spec fn digit_char(d: int) -> char {
    if d == 0 {
        '0'
    } else if d == 1 {
        '1'
    } else if d == 2 {
        '2'
    } else if d == 3 {
        '3'
    } else if d == 4 {
        '4'
    } else if d == 5 {
        '5'
    } else if d == 6 {
        '6'
    } else if d == 7 {
        '7'
    } else if d == 8 {
        '8'
    } else {
        '9'
    }
}

/// `n` written in decimal, zero-padded to three digits (for `n` under 1000).
pub open spec fn padded3(n: int) -> Seq<char> {
    seq![digit_char(n / 100), digit_char((n / 10) % 10), digit_char(n % 10)]
}

/// The file a frame numbered `n` is saved to.
pub open spec fn capture_path(n: int) -> Seq<char> {
    "./screenshots/screenshot-"@ + padded3(n) + ".png"@
}

/// The single decimal digit `d` as a string slice.
fn digit_str(d: u32) -> (s: &'static str)
    requires
        d < 10,
    ensures
        s@ == seq![digit_char(d as int)],
{
    if d == 0 {
        proof {
            reveal_strlit("0");
            assert("0"@ =~= seq![digit_char(0)]);
        }
        "0"
    } else if d == 1 {
        proof {
            reveal_strlit("1");
            assert("1"@ =~= seq![digit_char(1)]);
        }
        "1"
    } else if d == 2 {
        proof {
            reveal_strlit("2");
            assert("2"@ =~= seq![digit_char(2)]);
        }
        "2"
    } else if d == 3 {
        proof {
            reveal_strlit("3");
            assert("3"@ =~= seq![digit_char(3)]);
        }
        "3"
    } else if d == 4 {
        proof {
            reveal_strlit("4");
            assert("4"@ =~= seq![digit_char(4)]);
        }
        "4"
    } else if d == 5 {
        proof {
            reveal_strlit("5");
            assert("5"@ =~= seq![digit_char(5)]);
        }
        "5"
    } else if d == 6 {
        proof {
            reveal_strlit("6");
            assert("6"@ =~= seq![digit_char(6)]);
        }
        "6"
    } else if d == 7 {
        proof {
            reveal_strlit("7");
            assert("7"@ =~= seq![digit_char(7)]);
        }
        "7"
    } else if d == 8 {
        proof {
            reveal_strlit("8");
            assert("8"@ =~= seq![digit_char(8)]);
        }
        "8"
    } else {
        proof {
            reveal_strlit("9");
            assert("9"@ =~= seq![digit_char(9)]);
        }
        "9"
    }
}

/// Build the file name for frame number `n`.
pub fn capture_file_path(n: u32) -> (path: String)
    requires
        n < 1000,
    ensures
        path@ == capture_path(n as int),
{
    proof {
        assert(n / 100 < 10 && (n / 10) % 10 < 10 && n % 10 < 10) by (nonlinear_arith)
            requires
                n < 1000,
        ;
    }
    let mut path: String = String::from_str("./screenshots/screenshot-");
    path.append(digit_str(n / 100));
    path.append(digit_str((n / 10) % 10));
    path.append(digit_str(n % 10));
    path.append(".png");
    proof {
        assert(path@ =~= capture_path(n as int));
    }
    path
}

/// The recording state: how many frames were saved so far, and whether the
/// record key has been pressed yet.
pub struct CaptureSession {
    frames_saved: u32,
    recording: bool,
}

impl CaptureSession {
    /// How many frames have been saved so far.
    pub closed spec fn saved(self) -> int {
        self.frames_saved as int
    }

    /// Whether the record key has been pressed yet.
    pub closed spec fn recording(self) -> bool {
        self.recording
    }

    /// No more frames are ever saved than the capture limit allows.
    pub open spec fn wf(self) -> bool {
        self.saved() <= CAPTURE_LIMIT
    }

    /// A fresh session: nothing saved, not recording.
    pub fn new() -> (s: Self)
        ensures
            s.wf(),
            s.saved() == 0,
            !s.recording(),
    {
        CaptureSession { frames_saved: 0, recording: false }
    }

    /// Account for one frame.  Recording starts with the first press of the
    /// record key; while recording, and until the capture limit is reached,
    /// each frame is saved to the next numbered file, whose name is returned.
    pub fn frame(&mut self, record_key_pressed: bool) -> (save_to: Option<String>)
        requires
            old(self).wf(),
        ensures
            final(self).wf(),
            final(self).recording() == (old(self).recording() || record_key_pressed),
            (old(self).recording() || record_key_pressed) && old(self).saved() < CAPTURE_LIMIT
                ==> (save_to matches Some(p) && p@ == capture_path(old(self).saved())
                    && final(self).saved() == old(self).saved() + 1),
            !((old(self).recording() || record_key_pressed) && old(self).saved()
                < CAPTURE_LIMIT) ==> save_to is None && final(self).saved() == old(
                self,
            ).saved(),
    {
        if record_key_pressed {
            self.recording = true;
        }
        if self.recording && self.frames_saved < CAPTURE_LIMIT {
            let path: String = capture_file_path(self.frames_saved);
            self.frames_saved = self.frames_saved + 1;
            Some(path)
        } else {
            None
        }
    }
}

} // verus!
