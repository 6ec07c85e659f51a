//! Tracking hits and the leak-check status a participant can read.
use vstd::prelude::*;

verus! {

/// The 1x1 transparent GIF the mail tracker answers with.
pub const PIXEL_GIF: [u8; 43] = [
    0x47, 0x49, 0x46, 0x38, 0x39, 0x61, 0x01, 0x00, 0x01, 0x00, 0x80, 0x00, 0x00, 0x00, 0x00, 0x00,
    0xFF, 0xFF, 0xFF, 0x21, 0xF9, 0x04, 0x01, 0x00, 0x00, 0x00, 0x00, 0x2C, 0x00, 0x00, 0x00, 0x00,
    0x01, 0x00, 0x01, 0x00, 0x00, 0x02, 0x02, 0x44, 0x01, 0x00, 0x3B,
];

/// Where a participant's tracking hit came from.
#[derive(Clone, Copy, Debug, PartialEq, Eq, Structural)]
pub enum TrackOrigin {
    /// The page-embedded tracker.
    Browser,
    /// The image in the invitation mail.
    Mail,
}

/// The name under which each origin is recorded.
pub open spec fn origin_text(o: TrackOrigin) -> Seq<char> {
    match o {
        TrackOrigin::Browser => "browser"@,
        TrackOrigin::Mail => "mail"@,
    }
}

impl TrackOrigin {
    /// The name under which the origin is recorded.
    pub fn as_str(&self) -> (res: &'static str)
        ensures
            res@ == origin_text(*self),
    {
        match self {
            TrackOrigin::Browser => "browser",
            TrackOrigin::Mail => "mail",
        }
    }
}

/// A participant's leak-check status as the API reports it.
#[derive(Clone, Debug)]
pub struct LeakStatus<B> {
    /// Whether the participant asked for a check; no answer means no.
    pub leak_check: bool,
    /// Whether a check has finished.
    pub checked: bool,
    /// The breaches found, or the empty list before any check finished.
    pub breaches: B,
}

/// Reads the stored row: an unset flag means no check was asked for, and no
/// stored result means not checked yet and nothing found.
pub fn leak_status<B>(leak_check: Option<bool>, breaches: Option<B>, nothing_found: B) -> (res:
    LeakStatus<B>)
    ensures
        res.leak_check == (leak_check == Some(true)),
        res.checked == (breaches is Some),
        res.breaches == match breaches {
            Some(b) => b,
            None => nothing_found,
        },
{
    let flag = match leak_check {
        Some(f) => f,
        None => false,
    };
    match breaches {
        Some(b) => LeakStatus { leak_check: flag, checked: true, breaches: b },
        None => LeakStatus { leak_check: flag, checked: false, breaches: nothing_found },
    }
}

} // verus!
