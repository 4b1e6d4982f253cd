//! Stored market messages, replayed into bars.
use crate::data::{bar_text, encode_bar};
use crate::digest::{hex_bytes, hex_decode, is_hex, text_digest, text_sha256};
use crate::model::market::{MarketBar, MarketBarView};
use crate::text::{blank, is_blank, join};
use vstd::prelude::*;

verus! {

/// Why a replay is refused.
#[derive(Clone, Copy, Debug, PartialEq, Eq, Structural)]
pub enum ReplayError {
    /// A line of the log is empty.
    EmptyLine,
    /// The hexadecimal digits of a message are none.
    Hex,
    /// A message has no bytes, or has them twice.
    Payload,
    /// Nothing was replayed.
    NoBars,
    /// The session is not complete.
    Incomplete,
    /// The bars do not increase.
    Order,
    /// The source does not say how far it is complete.
    NoWatermark,
}

/// A stored message: its bytes as hexadecimal digits or as they are.
pub struct WireRecord {
    pub topic: String,
    pub payload_hex: Option<String>,
    pub payload: Option<Vec<u8>>,
}

/// The bytes of a stored message.
pub open spec fn payload_of(hex: Option<Seq<char>>, bytes: Option<Seq<u8>>) -> Result<
    Seq<u8>,
    ReplayError,
> {
    match (hex, bytes) {
        (Some(text), None) => if is_hex(text) {
            Ok(hex_bytes(text))
        } else {
            Err(ReplayError::Hex)
        },
        (None, Some(bytes)) => Ok(bytes),
        _ => Err(ReplayError::Payload),
    }
}

/// The text of an optional string.
pub open spec fn optional_text(t: Option<String>) -> Option<Seq<char>> {
    match t {
        Some(x) => Some(x@),
        None => None,
    }
}

/// The content of an optional list of bytes.
pub open spec fn optional_bytes(b: Option<Vec<u8>>) -> Option<Seq<u8>> {
    match b {
        Some(x) => Some(x@),
        None => None,
    }
}

impl WireRecord {
    /// The topic and the bytes of a stored message, which has them in exactly one
    /// of the two forms.
    pub fn payload_bytes(self) -> (r: Result<(String, Vec<u8>), ReplayError>)
        ensures
            match payload_of(optional_text(self.payload_hex), optional_bytes(self.payload)) {
                Ok(bytes) => r matches Ok(x) && x.0@ == self.topic@ && x.1@ == bytes,
                Err(e) => r matches Err(x) && x == e,
            },
    {
        match (self.payload_hex, self.payload) {
            (Some(text), None) => match hex_decode(text.as_str()) {
                Some(bytes) => Ok((self.topic, bytes)),
                None => Err(ReplayError::Hex),
            },
            (None, Some(bytes)) => Ok((self.topic, bytes)),
            _ => Err(ReplayError::Payload),
        }
    }
}

/// Accepts a line of a log that holds something.
pub fn validate_line(line: &str) -> (r: Result<(), ReplayError>)
    ensures
        r == (if blank(line@) {
            Err::<(), ReplayError>(ReplayError::EmptyLine)
        } else {
            Ok::<(), ReplayError>(())
        }),
{
    if is_blank(line) {
        return Err(ReplayError::EmptyLine);
    }
    Ok(())
}

/// Whether bars increase.
pub open spec fn bars_increase(bars: Seq<MarketBarView>) -> bool {
    forall|i: int|
        0 < i < bars.len() ==> bars[i - 1].timestamp.position() < (
        #[trigger] bars[i]).timestamp.position()
}

/// The first `n` bars in the JSON notation, with commas between them.
pub open spec fn bars_text(bars: Seq<MarketBarView>, n: nat) -> Seq<char>
    decreases n,
{
    if n == 0 {
        Seq::empty()
    } else if n == 1 {
        bar_text(bars[0])
    } else {
        bars_text(bars, (n - 1) as nat) + ","@ + bar_text(bars[n - 1])
    }
}

/// A list of bars in the JSON notation.
pub open spec fn bar_list_text(bars: Seq<MarketBarView>) -> Seq<char> {
    "["@ + bars_text(bars, bars.len()) + "]"@
}

/// A list of bars in the JSON notation.
pub fn encode_bars(bars: &Vec<MarketBar>) -> (r: String)
    ensures
        r@ == bar_list_text(bars.deep_view()),
{
    let ghost all = bars.deep_view();
    let mut t = "".to_owned();
    proof {
        reveal_strlit("");
        assert(t@ =~= Seq::<char>::empty());
    }
    let mut i: usize = 0;
    while i < bars.len()
        invariant
            i <= bars.len(),
            all == bars.deep_view(),
            t@ == bars_text(all, i as nat),
        decreases bars.len() - i,
    {
        assert(all[i as int] == bars[i as int]@);
        let text = encode_bar(&bars[i]);
        if i == 0 {
            t = text;
        } else {
            let u = join(t.as_str(), ",");
            t = join(u.as_str(), text.as_str());
        }
        i = i + 1;
    }
    let u = join("[", t.as_str());
    join(u.as_str(), "]")
}

/// Why a replay is refused, if it is.
pub open spec fn replay_fault(
    events: u64,
    bars: Seq<MarketBarView>,
    complete: bool,
    covered: Option<u64>,
) -> Option<ReplayError> {
    if events == 0 || bars.len() == 0 {
        Some(ReplayError::NoBars)
    } else if !complete {
        Some(ReplayError::Incomplete)
    } else if !bars_increase(bars) {
        Some(ReplayError::Order)
    } else if covered is None {
        Some(ReplayError::NoWatermark)
    } else {
        None
    }
}

fn do_bars_increase(bars: &Vec<MarketBar>) -> (r: bool)
    ensures
        r == bars_increase(bars.deep_view()),
{
    let ghost all = bars.deep_view();
    let end: usize = bars.len();
    let mut i: usize = 1;
    while i < end
        invariant
            1 <= i,
            end == bars.len(),
            all == bars.deep_view(),
            forall|j: int|
                0 < j < i && j < all.len() ==> all[j - 1].timestamp.position() < (
                #[trigger] all[j]).timestamp.position(),
        decreases end - i,
    {
        assert(all[i as int] == bars[i as int]@ && all[i - 1] == bars[i - 1]@);
        if !bars[i - 1].timestamp.before(&bars[i].timestamp) {
            return false;
        }
        i = i + 1;
    }
    true
}

/// Accepts a replay of a complete session. The answer is how far the source is
/// complete and the digest of the bars.
pub fn audit_replay(
    events: u64,
    bars: &Vec<MarketBar>,
    complete: bool,
    covered_through_us: Option<u64>,
) -> (r: Result<(u64, String), ReplayError>)
    ensures
        match replay_fault(events, bars.deep_view(), complete, covered_through_us) {
            Some(e) => r matches Err(x) && x == e,
            None => r matches Ok(x) && Some(x.0) == covered_through_us && x.1@ == text_digest(
                bar_list_text(bars.deep_view()),
            ),
        },
{
    if events == 0 || bars.len() == 0 {
        return Err(ReplayError::NoBars);
    }
    if !complete {
        return Err(ReplayError::Incomplete);
    }
    if !do_bars_increase(bars) {
        return Err(ReplayError::Order);
    }
    match covered_through_us {
        None => Err(ReplayError::NoWatermark),
        Some(covered) => {
            let text = encode_bars(bars);
            Ok((covered, text_sha256(text.as_str())))
        },
    }
}

} // verus!
