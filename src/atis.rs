//! ATIS broadcast records and the resolution of an airport's current
//! information letter from them.
use vstd::prelude::*;

use crate::text::{
    chars_of, contains_seq, has_prefix, has_substring, is_prefix_of, join_lines, joined,
    letter_position, text_letter, views,
};

verus! {

/// One published ATIS broadcast of the live datafeed.
#[derive(Clone, Debug)]
pub struct BroadcastRecord {
    /// Feed identifier such as `KXYZ_ATIS`, `KXYZ_A_ATIS` or `KXYZ_D_ATIS`.
    pub callsign: String,
    /// The structured information letter, when the feed gives one.
    pub atis_code: Option<String>,
    /// The broadcast transcript, line by line, when the feed gives one.
    pub text_atis: Option<Vec<String>>,
}

/// What a `BroadcastRecord` holds, as character sequences.
pub struct RecordView {
    pub callsign: Seq<char>,
    pub code: Option<Seq<char>>,
    pub text: Option<Seq<Seq<char>>>,
}

impl View for BroadcastRecord {
    type V = RecordView;

    open spec fn view(&self) -> RecordView {
        RecordView {
            callsign: self.callsign@,
            code: match self.atis_code {
                Some(c) => Some(c@),
                None => None,
            },
            text: match self.text_atis {
                Some(t) => Some(views(t@)),
                None => None,
            },
        }
    }
}

/// The views of a sequence of records.
pub open spec fn record_views(v: Seq<BroadcastRecord>) -> Seq<RecordView> {
    v.map_values(|r: BroadcastRecord| r@)
}

/// The views of a sequence of borrowed records.
pub open spec fn borrowed_views(v: Seq<&BroadcastRecord>) -> Seq<RecordView> {
    v.map_values(|r: &BroadcastRecord| r@)
}

/// The placeholder shown where no letter is known.
pub open spec fn dash() -> Seq<char> {
    seq!['-']
}

/// The difference between the code points of two characters.
pub open spec fn code_point_delta(later: char, earlier: char) -> int {
    later as int - earlier as int
}

/// The current letter of one record. When both the structured letter and
/// the letter read from the text are known, the text wins only when it is
/// exactly one letter ahead of the first character of the structured
/// letter (the feed lags behind the transcript); there is no wraparound
/// from `Z` to `A`.
pub open spec fn record_letter(r: RecordView) -> Seq<char> {
    match (r.code, r.text) {
        (Some(code), Some(lines)) => {
            let t = text_letter(joined(lines));
            if code.len() > 0 && t is Some {
                if code_point_delta(t->0, code[0]) == 1 {
                    seq![t->0]
                } else {
                    seq![code[0]]
                }
            } else {
                code
            }
        },
        (Some(code), None) => code,
        (None, Some(lines)) => match text_letter(joined(lines)) {
            Some(t) => seq![t],
            None => dash(),
        },
        (None, None) => dash(),
    }
}

pub open spec fn arrival_tag() -> Seq<char> {
    seq!['_', 'A', '_']
}

pub open spec fn departure_tag() -> Seq<char> {
    seq!['_', 'D', '_']
}

/// The index of the first record at or after `i` whose callsign contains
/// `pat`.
pub open spec fn first_index_with(found: Seq<RecordView>, pat: Seq<char>, i: nat) -> Option<int>
    decreases found.len() - i,
{
    if i >= found.len() {
        None
    } else if contains_seq(found[i as int].callsign, pat) {
        Some(i as int)
    } else {
        first_index_with(found, pat, (i + 1) as nat)
    }
}

/// The letter of the first record whose callsign contains `pat`, or the
/// placeholder when there is none.
pub open spec fn stream_letter(found: Seq<RecordView>, pat: Seq<char>) -> Seq<char> {
    match first_index_with(found, pat, 0) {
        Some(i) => record_letter(found[i]),
        None => dash(),
    }
}

/// The letter shown for the records of one airport: the placeholder for
/// none, the record's letter for one, and `arrival/departure` for more.
pub open spec fn atis_letter(found: Seq<RecordView>) -> Seq<char> {
    if found.len() == 0 {
        dash()
    } else if found.len() == 1 {
        record_letter(found[0])
    } else {
        stream_letter(found, arrival_tag()) + seq!['/'] + stream_letter(found, departure_tag())
    }
}

/// The joined text of each record that has text, in feed order.
pub open spec fn atis_texts(found: Seq<RecordView>) -> Seq<Seq<char>> {
    found.filter_map(
        |r: RecordView|
            match r.text {
                Some(lines) => Some(joined(lines)),
                None => None,
            },
    )
}

/// `resp` is the resolved ATIS of the airport `icao` among `records`.
pub open spec fn resolves_to(resp: FetchAtisResponse, records: Seq<RecordView>, icao: Seq<char>) -> bool {
    &&& resp.letter@ == atis_letter(matching(records, icao))
    &&& views(resp.texts@) == atis_texts(matching(records, icao))
}

/// The records whose callsign starts with `icao`.
pub open spec fn matching(records: Seq<RecordView>, icao: Seq<char>) -> Seq<RecordView> {
    records.filter(|r: RecordView| is_prefix_of(icao, r.callsign))
}

fn code_point(c: char) -> (r: u32)
    ensures
        r as int == c as int,
{
    c as u32
}

fn dash_string() -> (r: String)
    ensures
        r@ == dash(),
{
    proof {
        reveal_strlit("-");
    }
    String::from_str("-")
}

/// The current letter of one record.
pub fn parse_atis_code(atis: &BroadcastRecord) -> (r: String)
    ensures
        r@ == record_letter(atis@),
{
    match (&atis.atis_code, &atis.text_atis) {
        (Some(code), Some(text_lines)) => {
            let code_str = code.as_str();
            let joined_text = join_lines(text_lines);
            let text_chars = chars_of(joined_text.as_str());
            // The length bounds the letter's index, so that `k + 1` fits.
            let n = text_chars.len();
            if code_str.unicode_len() > 0 {
                match letter_position(&text_chars) {
                    Some(k) => {
                        let cc: char = code_str.get_char(0);
                        let tc: char = text_chars[k];
                        let c = code_point(cc);
                        let t = code_point(tc);
                        if t > c && t - c == 1 {
                            let r = joined_text.as_str().substring_char(k, k + 1).to_owned();
                            assert(r@ =~= seq![text_chars@[k as int]]);
                            assert(code_point_delta(text_chars@[k as int], code@[0]) == 1);
                            r
                        } else {
                            let r = code_str.substring_char(0, 1).to_owned();
                            assert(r@ =~= seq![code@[0]]);
                            assert(code_point_delta(text_chars@[k as int], code@[0]) != 1);
                            r
                        }
                    },
                    None => code.clone(),
                }
            } else {
                code.clone()
            }
        },
        (Some(code), None) => code.clone(),
        (None, Some(text_lines)) => {
            let joined_text = join_lines(text_lines);
            let text_chars = chars_of(joined_text.as_str());
            // The length bounds the letter's index, so that `k + 1` fits.
            let n = text_chars.len();
            match letter_position(&text_chars) {
                Some(k) => {
                    let r = joined_text.as_str().substring_char(k, k + 1).to_owned();
                    assert(r@ =~= seq![text_chars@[k as int]]);
                    r
                },
                None => dash_string(),
            }
        },
        (None, None) => dash_string(),
    }
}

/// The letter of the first record whose callsign contains `pat`, or the
/// placeholder when no callsign does.
pub fn filter_callsign_and_parse(atises: &Vec<&BroadcastRecord>, pat: &str) -> (r: String)
    ensures
        r@ == stream_letter(borrowed_views(atises@), pat@),
{
    let ghost found = borrowed_views(atises@);
    let n = atises.len();
    let mut i: usize = 0;
    while i < n
        invariant
            n == atises@.len(),
            i <= n,
            found == borrowed_views(atises@),
            first_index_with(found, pat@, 0) == first_index_with(found, pat@, i as nat),
        decreases n - i,
    {
        let a: &BroadcastRecord = atises[i];
        assert(found[i as int] == a@);
        if has_substring(a.callsign.as_str(), pat) {
            return parse_atis_code(a);
        }
        i += 1;
    }
    dash_string()
}

/// A snapshot of the live datafeed: the ATIS broadcasts, in feed order.
#[derive(Clone, Debug)]
pub struct DatafeedSnapshot {
    pub atis: Vec<BroadcastRecord>,
}

impl View for DatafeedSnapshot {
    type V = Seq<RecordView>;

    open spec fn view(&self) -> Seq<RecordView> {
        record_views(self.atis@)
    }
}

/// The resolved ATIS of one airport: its current letter and the joined text
/// of each of its broadcasts.
#[derive(Clone, Debug)]
pub struct FetchAtisResponse {
    pub letter: String,
    pub texts: Vec<String>,
}

/// The records of `snapshot` whose callsign starts with `icao_id`, in feed
/// order.
pub fn find_atis<'a>(snapshot: &'a DatafeedSnapshot, icao_id: &str) -> (r: Vec<&'a BroadcastRecord>)
    ensures
        borrowed_views(r@) == matching(snapshot@, icao_id@),
{
    let ghost pred = |r: RecordView| is_prefix_of(icao_id@, r.callsign);
    let mut found: Vec<&'a BroadcastRecord> = Vec::new();
    let n = snapshot.atis.len();
    let mut i: usize = 0;
    while i < n
        invariant
            n == snapshot.atis@.len(),
            i <= n,
            pred == (|r: RecordView| is_prefix_of(icao_id@, r.callsign)),
            borrowed_views(found@) == snapshot@.subrange(0, i as int).filter(pred),
        decreases n - i,
    {
        let a: &'a BroadcastRecord = &snapshot.atis[i];
        proof {
            let pre = snapshot@.subrange(0, i as int);
            let next = snapshot@.subrange(0, i + 1);
            assert(next.drop_last() =~= pre);
            assert(next.last() == a@);
            reveal(Seq::filter);
        }
        if has_prefix(a.callsign.as_str(), icao_id) {
            found.push(a);
            assert(borrowed_views(found@) =~= snapshot@.subrange(0, i as int).filter(pred).push(a@));
        }
        i += 1;
    }
    assert(snapshot@.subrange(0, n as int) =~= snapshot@);
    found
}

/// The joined text of each record that has text, in order.
fn collect_texts(found: &Vec<&BroadcastRecord>) -> (r: Vec<String>)
    ensures
        views(r@) == atis_texts(borrowed_views(found@)),
{
    let mut texts: Vec<String> = Vec::new();
    let n = found.len();
    let mut i: usize = 0;
    while i < n
        invariant
            n == found@.len(),
            i <= n,
            views(texts@) == atis_texts(borrowed_views(found@).subrange(0, i as int)),
        decreases n - i,
    {
        let a: &BroadcastRecord = found[i];
        proof {
            let pre = borrowed_views(found@).subrange(0, i as int);
            let next = borrowed_views(found@).subrange(0, i + 1);
            assert(next.drop_last() =~= pre);
            assert(next.last() == a@);
        }
        match &a.text_atis {
            Some(lines) => {
                let joined_text = join_lines(lines);
                texts.push(joined_text);
                assert(views(texts@) =~= atis_texts(borrowed_views(found@).subrange(0, i as int))
                    + seq![joined(views(lines@))]);
            },
            None => {},
        }
        i += 1;
    }
    assert(borrowed_views(found@).subrange(0, n as int) =~= borrowed_views(found@));
    texts
}

/// The resolved ATIS of the airport `icao_id` in `snapshot`: the records
/// whose callsign starts with `icao_id` give the letter and the texts.
pub fn resolve_atis(snapshot: &DatafeedSnapshot, icao_id: &str) -> (r: FetchAtisResponse)
    ensures
        resolves_to(r, snapshot@, icao_id@),
{
    let found = find_atis(snapshot, icao_id);
    let letter = if found.len() == 0 {
        dash_string()
    } else if found.len() == 1 {
        assert(borrowed_views(found@)[0] == found@[0]@);
        parse_atis_code(found[0])
    } else {
        proof {
            reveal_strlit("_A_");
            reveal_strlit("_D_");
            reveal_strlit("/");
        }
        let mut l = filter_callsign_and_parse(&found, "_A_");
        l.append("/");
        let departure = filter_callsign_and_parse(&found, "_D_");
        l.append(departure.as_str());
        assert("_A_"@ =~= arrival_tag());
        assert("_D_"@ =~= departure_tag());
        assert(l@ =~= stream_letter(borrowed_views(found@), arrival_tag()) + seq!['/']
            + stream_letter(borrowed_views(found@), departure_tag()));
        l
    };
    let texts = collect_texts(&found);
    FetchAtisResponse { letter, texts }
}

} // verus!
