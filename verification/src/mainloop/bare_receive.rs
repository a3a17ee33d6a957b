//! The single-pass runner's response handling: the head collected in a
//! fixed buffer, its status code and announced length, the body counted as
//! it streams to disk, the progress shown per mebibyte, and when the
//! transfer is over.

use super::bare_metal::{u16_of_chars, u16_text, usize_of_chars, usize_text};
use super::context::{elapsed, elapsed_ticks};
use super::states::http::{blank_line_at, find_header_end, is_content_length_line};
use crate::text::{
    chars_eq_ignore_case, chars_of, contains_ignore_case_chars, contains_ignore_case_spec,
    eq_ignore_case, find, find_exec, find_from, lemma_find_from_range, lemma_split_nonempty,
    split_chars, split_on, trim, trim_bounds, utf8_text,
};
use vstd::prelude::*;
use vstd::slice::slice_subrange;
use vstd::utf8::{decode_utf8, encode_utf8_decode_utf8, valid_utf8};

verus! {

/// The first line of `text` (up to its first `\r`); its status code is the
/// word after the first space, up to the next space or the line's end, as a
/// decimal `u16`. `None` without a `\r`, without a space, or when that word
/// is not such a number.
pub open spec fn status_code_of(text: Seq<char>) -> Option<u16> {
    match find(text, seq!['\r']) {
        None => None,
        Some(e) => {
            let line = text.take(e);
            match find(line, seq![' ']) {
                None => None,
                Some(s) => {
                    let after = line.skip(s + 1);
                    let end = match find(after, seq![' ']) {
                        Some(k) => k,
                        None => after.len() as int,
                    };
                    u16_text(after.take(end))
                },
            }
        },
    }
}

/// The value a `Content-Length:` line gives: the rest of the line, trimmed,
/// read as a `usize`; `None` for another line or a value that is not one.
pub open spec fn length_line_value(line: Seq<char>) -> Option<usize> {
    if is_content_length_line(line) {
        usize_text(trim(line.skip(15)))
    } else {
        None
    }
}

/// The value of the last line of `lines` that gives one.
pub open spec fn last_length(lines: Seq<Seq<char>>) -> Option<usize>
    decreases lines.len(),
{
    if lines.len() == 0 {
        None
    } else {
        match length_line_value(lines.last()) {
            Some(v) => Some(v),
            None => last_length(lines.drop_last()),
        }
    }
}

/// The length the head announces: over its lines after the status line,
/// the last `Content-Length:` value that reads as a number.
pub open spec fn announced_length_of(text: Seq<char>) -> Option<usize> {
    last_length(split_on(text, '\n').skip(1))
}

/// A `Transfer-Encoding:` line naming `chunked` (both ASCII
/// case-insensitive).
pub open spec fn is_chunked_line(line: Seq<char>) -> bool {
    &&& line.len() >= 18
    &&& eq_ignore_case(line.take(18), "transfer-encoding:"@)
    &&& contains_ignore_case_spec(line, "chunked"@)
}

/// Some line of `lines` is a chunked `Transfer-Encoding:` line.
pub open spec fn any_chunked(lines: Seq<Seq<char>>) -> bool
    decreases lines.len(),
{
    lines.len() > 0 && (is_chunked_line(lines.last()) || any_chunked(lines.drop_last()))
}

/// The head announces chunked transfer encoding after its status line.
pub open spec fn chunked_of(text: Seq<char>) -> bool {
    any_chunked(split_on(text, '\n').skip(1))
}

/// `cs[lo..hi]` as a vector of its own.
fn slice_chars(cs: &Vec<char>, lo: usize, hi: usize) -> (r: Vec<char>)
    requires
        lo <= hi <= cs.len(),
    ensures
        r@ == cs@.subrange(lo as int, hi as int),
{
    let mut r: Vec<char> = Vec::new();
    let mut i = lo;
    while i < hi
        invariant
            lo <= i <= hi <= cs.len(),
            r@ == cs@.subrange(lo as int, i as int),
        decreases hi - i,
    {
        r.push(cs[i]);
        i += 1;
        assert(r@ =~= cs@.subrange(lo as int, i as int));
    }
    r
}

/// The status code of a response head's text; see `status_code_of`.
pub fn status_code(text: &str) -> (r: Option<u16>)
    ensures
        r == status_code_of(text@),
{
    let cs = chars_of(text);
    let cr = vec!['\r'];
    assert(cr@ =~= seq!['\r']);
    proof {
        lemma_find_from_range(cs@, cr@, 0);
    }
    let e = match find_exec(&cs, &cr, 0) {
        None => return None,
        Some(e) => e,
    };
    let line = slice_chars(&cs, 0, e);
    assert(line@ =~= text@.take(e as int));
    let sp = vec![' '];
    assert(sp@ =~= seq![' ']);
    proof {
        lemma_find_from_range(line@, sp@, 0);
    }
    let s = match find_exec(&line, &sp, 0) {
        None => return None,
        Some(s) => s,
    };
    let after = slice_chars(&line, s + 1, line.len());
    assert(after@ =~= line@.skip(s + 1));
    proof {
        lemma_find_from_range(after@, sp@, 0);
    }
    let end = match find_exec(&after, &sp, 0) {
        Some(k) => k,
        None => after.len(),
    };
    let word = slice_chars(&after, 0, end);
    assert(word@ =~= after@.take(end as int));
    u16_of_chars(&word)
}

/// `length_line_value` of one line; `key` holds `content-length:`.
fn line_length(line: &Vec<char>, key: &Vec<char>) -> (r: Option<usize>)
    requires
        key@ == "content-length:"@,
        key@.len() == 15,
    ensures
        r == length_line_value(line@),
{
    if line.len() < 15 {
        return None;
    }
    let head = slice_chars(line, 0, 15);
    assert(head@ =~= line@.take(15));
    if !chars_eq_ignore_case(&head, key) {
        return None;
    }
    let (a, b) = trim_bounds(line, 15, line.len());
    assert(line@.subrange(15, line@.len() as int) =~= line@.skip(15));
    let value = slice_chars(line, a, b);
    usize_of_chars(&value)
}

/// `is_chunked_line` of one line; `key` holds `transfer-encoding:` and
/// `word` holds `chunked`.
fn line_chunked(line: &Vec<char>, key: &Vec<char>, word: &Vec<char>) -> (r: bool)
    requires
        key@ == "transfer-encoding:"@,
        key@.len() == 18,
        word@ == "chunked"@,
    ensures
        r == is_chunked_line(line@),
{
    if line.len() < 18 {
        return false;
    }
    let head = slice_chars(line, 0, 18);
    assert(head@ =~= line@.take(18));
    chars_eq_ignore_case(&head, key) && contains_ignore_case_chars(line, word)
}

/// The length a response head's text announces, and whether it announces
/// chunked encoding; see `announced_length_of` and `chunked_of`.
pub fn head_fields(text: &str) -> (r: (Option<usize>, bool))
    ensures
        r.0 == announced_length_of(text@),
        r.1 == chunked_of(text@),
{
    let cs = chars_of(text);
    let lines = split_chars(&cs, '\n');
    let key = chars_of("content-length:");
    let te = chars_of("transfer-encoding:");
    let word = chars_of("chunked");
    proof {
        reveal_strlit("content-length:");
        reveal_strlit("transfer-encoding:");
        reveal_strlit("chunked");
        lemma_split_nonempty(text@, '\n');
    }
    let ghost all = split_on(text@, '\n');
    let mut found: Option<usize> = None;
    let mut chunked = false;
    let mut i: usize = 1;
    assert(all.subrange(1, 1) =~= Seq::<Seq<char>>::empty());
    while i < lines.len()
        invariant
            all == split_on(text@, '\n'),
            all.len() >= 1,
            lines@.len() == all.len(),
            forall|k: int| 0 <= k < lines@.len() ==> #[trigger] lines@[k]@ == all[k],
            key@ == "content-length:"@,
            key@.len() == 15,
            te@ == "transfer-encoding:"@,
            te@.len() == 18,
            word@ == "chunked"@,
            1 <= i <= lines@.len(),
            found == last_length(all.subrange(1, i as int)),
            chunked == any_chunked(all.subrange(1, i as int)),
        decreases lines.len() - i,
    {
        let v = line_length(&lines[i], &key);
        let c = line_chunked(&lines[i], &te, &word);
        let ghost next = all.subrange(1, i + 1);
        assert(next.drop_last() =~= all.subrange(1, i as int));
        assert(next.last() == all[i as int]);
        if v.is_some() {
            found = v;
        }
        chunked = chunked || c;
        i += 1;
    }
    assert(all.subrange(1, all.len() as int) =~= all.skip(1));
    (found, chunked)
}

/// Capacity of the buffer the response head is collected in.
pub const BARE_HEAD_CAPACITY: usize = 16384;

/// Bytes in a mebibyte.
pub const MIB: usize = 0x10_0000;

/// The text of a response head: its characters when it is UTF-8, else
/// nothing.
pub open spec fn head_text(head: Seq<u8>) -> Seq<char> {
    if valid_utf8(head) {
        decode_utf8(head)
    } else {
        Seq::empty()
    }
}

/// `e` is where the first blank line (`\r\n\r\n`) of `data` starts.
pub open spec fn first_blank_line(data: Seq<u8>, e: int) -> bool {
    &&& blank_line_at(data, e)
    &&& forall|j: int| 0 <= j < e ==> !blank_line_at(data, j)
}

/// What received data did.
#[derive(Debug, Clone, Copy, PartialEq, Eq, Structural)]
pub enum BareEvent {
    /// Nothing was received.
    NoData,
    /// Part of the head arrived; it is not complete yet.
    Pending,
    /// The head does not fit its buffer: the download fails.
    HeadersTooLarge,
    /// The status is an error (400 or more): the download fails.
    HttpError { status: u16 },
    /// The head is complete; `body_len` bytes of the body came with it.
    HeadersDone {
        status: Option<u16>,
        content_length: Option<usize>,
        chunked: bool,
        body_len: usize,
    },
    /// Body bytes arrived.
    Body,
}

/// Whether the transfer is over.
#[derive(Debug, Clone, Copy, PartialEq, Eq, Structural)]
pub enum BareEnd {
    /// Keep receiving.
    Continue,
    /// The announced length arrived.
    Complete,
    /// No length was announced and the server closed: all of it arrived.
    CompleteOnClose,
    /// The server closed before the announced length (the runner warns and
    /// goes on with what it has).
    ClosedShort,
}

/// Which receive timeout expired.
#[derive(Debug, Clone, Copy, PartialEq, Eq, Structural)]
pub enum BareTimeout {
    /// The whole transfer took too long.
    Total,
    /// Nothing arrived for too long once the body started.
    Stalled,
}

/// A progress line: mebibytes received, and with an announced length the
/// percentage and the total in mebibytes.
#[derive(Debug, Clone, Copy, PartialEq, Eq, Structural)]
pub struct ProgressLine {
    pub mb: usize,
    pub percent: Option<u64>,
    pub total_mb: Option<usize>,
}

/// How a wait for the connection or for the request to drain ended.
#[derive(Debug, Clone, Copy, PartialEq, Eq, Structural)]
pub enum WaitOutcome {
    /// The time ran out.
    TimedOut,
    /// What was awaited happened.
    Done,
    /// The connection closed.
    Closed,
    /// Keep polling.
    Pending,
}

/// One poll of a wait started at `start`: the timeout is checked first,
/// then whether the awaited thing happened, then whether the connection is
/// still open.
pub fn wait_outcome(start: u64, now: u64, timeout: u64, done: bool, open: bool) -> (r: WaitOutcome)
    ensures
        r == (if elapsed_ticks(start, now) > timeout {
            WaitOutcome::TimedOut
        } else if done {
            WaitOutcome::Done
        } else if !open {
            WaitOutcome::Closed
        } else {
            WaitOutcome::Pending
        }),
{
    if elapsed(start, now) > timeout {
        WaitOutcome::TimedOut
    } else if done {
        WaitOutcome::Done
    } else if !open {
        WaitOutcome::Closed
    } else {
        WaitOutcome::Pending
    }
}

/// The receive timeouts for a counter running at `tsc_freq` ticks per
/// second: an hour for the whole transfer, a minute without data.
pub fn bare_timeouts(tsc_freq: u64) -> (r: (u64, u64))
    requires
        tsc_freq * 3600 <= u64::MAX,
    ensures
        r == ((tsc_freq * 3600) as u64, (tsc_freq * 60) as u64),
{
    (tsc_freq * 3600, tsc_freq * 60)
}

/// The 20-character progress bar for `percent`: `=` for each full 5%, `>`
/// after them, blanks to the end.
pub fn progress_bar(percent: u64) -> (r: Vec<u8>)
    ensures
        r@.len() == 20,
        forall|i: int|
            0 <= i < 20 ==> #[trigger] r@[i] == (if i < percent / 5 {
                61u8
            } else if i == percent / 5 {
                62u8
            } else {
                32u8
            }),
{
    let filled = percent / 5;
    let mut r: Vec<u8> = Vec::new();
    let mut i: u64 = 0;
    while i < 20
        invariant
            i <= 20,
            filled == percent / 5,
            r@.len() == i,
            forall|k: int|
                0 <= k < i ==> #[trigger] r@[k] == (if k < percent / 5 {
                    61u8
                } else if k == percent / 5 {
                    62u8
                } else {
                    32u8
                }),
        decreases 20 - i,
    {
        let c: u8 = if i < filled {
            61
        } else if i == filled {
            62
        } else {
            32
        };
        r.push(c);
        i += 1;
    }
    r
}

/// The single-pass runner's receive side.
pub struct BareReceiver {
    head: Vec<u8>,
    headers_done: bool,
    status: Option<u16>,
    content_length: Option<usize>,
    body_start: usize,
    body_received: usize,
    total_received: usize,
    start: u64,
    last_activity: u64,
    shown_mb: usize,
}

impl BareReceiver {
    /// The head fits its buffer; before the head is complete everything
    /// received is head, after it everything is the head up to its blank
    /// line or body.
    pub closed spec fn wf(&self) -> bool {
        &&& self.head@.len() <= BARE_HEAD_CAPACITY
        &&& !self.headers_done ==> self.body_received == 0 && self.total_received == self.head@.len()
        &&& self.headers_done ==> self.body_start <= self.head@.len() && self.total_received
            == self.body_start + self.body_received
    }

    /// The bytes collected for the head (with any body that came with it).
    pub closed spec fn spec_head(&self) -> Seq<u8> {
        self.head@
    }

    pub closed spec fn spec_headers_done(&self) -> bool {
        self.headers_done
    }

    pub closed spec fn spec_status(&self) -> Option<u16> {
        self.status
    }

    pub closed spec fn spec_content_length(&self) -> Option<usize> {
        self.content_length
    }

    /// Where the body starts in the collected head bytes.
    pub closed spec fn spec_body_start(&self) -> usize {
        self.body_start
    }

    pub closed spec fn spec_body(&self) -> usize {
        self.body_received
    }

    pub closed spec fn spec_total(&self) -> usize {
        self.total_received
    }

    pub closed spec fn spec_start(&self) -> u64 {
        self.start
    }

    pub closed spec fn spec_last_activity(&self) -> u64 {
        self.last_activity
    }

    /// The mebibytes last shown on a progress line.
    pub closed spec fn spec_shown_mb(&self) -> usize {
        self.shown_mb
    }

    /// A receiver started at `now`, with nothing received.
    pub fn new(now: u64) -> (r: Self)
        ensures
            r.wf(),
            r.spec_head() == Seq::<u8>::empty(),
            !r.spec_headers_done(),
            r.spec_status() is None,
            r.spec_content_length() is None,
            r.spec_body() == 0,
            r.spec_total() == 0,
            r.spec_start() == now,
            r.spec_last_activity() == now,
            r.spec_shown_mb() == 0,
    {
        BareReceiver {
            head: Vec::new(),
            headers_done: false,
            status: None,
            content_length: None,
            body_start: 0,
            body_received: 0,
            total_received: 0,
            start: now,
            last_activity: now,
            shown_mb: 0,
        }
    }

    pub fn headers_done(&self) -> (r: bool)
        ensures
            r == self.spec_headers_done(),
    {
        self.headers_done
    }

    pub fn status(&self) -> (r: Option<u16>)
        ensures
            r == self.spec_status(),
    {
        self.status
    }

    pub fn content_length(&self) -> (r: Option<usize>)
        ensures
            r == self.spec_content_length(),
    {
        self.content_length
    }

    pub fn body_received(&self) -> (r: usize)
        ensures
            r == self.spec_body(),
    {
        self.body_received
    }

    pub fn total_received(&self) -> (r: usize)
        ensures
            r == self.spec_total(),
    {
        self.total_received
    }
}

impl BareReceiver {
    /// Take `data` received at `now`. While the head is incomplete the data
    /// joins it (unless it would overflow the buffer); once a blank line
    /// ends it, its status code, announced length and chunked encoding are
    /// read, an error status (400 or more) fails, and the bytes after the
    /// blank line are the body's start. After the head, the data is body.
    pub fn on_data(&mut self, data: &[u8], now: u64) -> (r: BareEvent)
        requires
            old(self).wf(),
            old(self).spec_total() + data@.len() <= usize::MAX,
        ensures
            final(self).wf(),
            final(self).spec_start() == old(self).spec_start(),
            final(self).spec_shown_mb() == old(self).spec_shown_mb(),
            data@.len() == 0 ==> r == BareEvent::NoData && *final(self) == *old(self),
            data@.len() > 0 && old(self).spec_headers_done() ==> {
                &&& r == BareEvent::Body
                &&& final(self).spec_headers_done()
                &&& final(self).spec_body() == old(self).spec_body() + data@.len()
                &&& final(self).spec_total() == old(self).spec_total() + data@.len()
                &&& final(self).spec_last_activity() == now
                &&& final(self).spec_head() == old(self).spec_head()
                &&& final(self).spec_body_start() == old(self).spec_body_start()
                &&& final(self).spec_status() == old(self).spec_status()
                &&& final(self).spec_content_length() == old(self).spec_content_length()
            },
            data@.len() > 0 && !old(self).spec_headers_done() && data@.len() > BARE_HEAD_CAPACITY
                - old(self).spec_head().len() ==> r == BareEvent::HeadersTooLarge && *final(self) == *old(
                self),
            data@.len() > 0 && !old(self).spec_headers_done() && data@.len() <= BARE_HEAD_CAPACITY
                - old(self).spec_head().len() ==> {
                let head = old(self).spec_head() + data@;
                &&& final(self).spec_head() == head
                &&& final(self).spec_total() == head.len()
                &&& final(self).spec_last_activity() == now
                &&& match r {
                    BareEvent::Pending => (forall|j: int| !blank_line_at(head, j))
                        && !final(self).spec_headers_done(),
                    BareEvent::HttpError { status } => exists|e: int|
                        #![trigger head.take(e)]
                        first_blank_line(head, e) && status_code_of(head_text(head.take(e)))
                            == Some(status) && status >= 400,
                    BareEvent::HeadersDone { status, content_length, chunked, body_len } => exists|
                        e: int,
                    |
                        #![trigger head.take(e)]
                        {
                            let text = head_text(head.take(e));
                            &&& first_blank_line(head, e)
                            &&& status == status_code_of(text)
                            &&& !(status matches Some(c) && c >= 400)
                            &&& content_length == announced_length_of(text)
                            &&& chunked == chunked_of(text)
                            &&& body_len == head.len() - (e + 4)
                            &&& final(self).spec_headers_done()
                            &&& final(self).spec_body_start() == e + 4
                            &&& final(self).spec_body() == body_len
                            &&& final(self).spec_status() == status
                            &&& final(self).spec_content_length() == content_length
                        },
                    _ => false,
                }
            },
    {
        let n = data.len();
        if n == 0 {
            return BareEvent::NoData;
        }
        if self.headers_done {
            self.body_received = self.body_received + n;
            self.total_received = self.total_received + n;
            self.last_activity = now;
            return BareEvent::Body;
        }
        if n > BARE_HEAD_CAPACITY - self.head.len() {
            return BareEvent::HeadersTooLarge;
        }
        let ghost old_head = self.head@;
        let mut k: usize = 0;
        while k < n
            invariant
                n == data@.len(),
                k <= n,
                self.head@ == old_head + data@.take(k as int),
                old_head == old(self).head@,
                self.headers_done == old(self).headers_done,
                self.status == old(self).status,
                self.content_length == old(self).content_length,
                self.body_start == old(self).body_start,
                self.body_received == old(self).body_received,
                self.total_received == old(self).total_received,
                self.start == old(self).start,
                self.last_activity == old(self).last_activity,
                self.shown_mb == old(self).shown_mb,
            decreases n - k,
        {
            self.head.push(data[k]);
            assert(data@.take(k + 1) =~= data@.take(k as int).push(data@[k as int]));
            k += 1;
        }
        assert(data@.take(n as int) =~= data@);
        self.total_received = self.total_received + n;
        self.last_activity = now;
        let ghost head = self.head@;
        let end = match find_header_end(self.head.as_slice()) {
            Some(e) => e,
            None => {
                return BareEvent::Pending;
            },
        };
        let head_part = slice_subrange(self.head.as_slice(), 0, end);
        assert(head_part@ =~= head.take(end as int));
        let text: &str = match utf8_text(head_part) {
            Some(t) => {
                proof {
                    encode_utf8_decode_utf8(t@);
                }
                t
            },
            None => {
                proof {
                    reveal_strlit("");
                }
                ""
            },
        };
        assert(text@ == head_text(head.take(end as int)));
        let status = status_code(text);
        self.headers_done = true;
        self.status = status;
        self.body_start = end + 4;
        self.body_received = self.head.len() - (end + 4);
        if let Some(c) = status {
            if c >= 400 {
                return BareEvent::HttpError { status: c };
            }
        }
        let (content_length, chunked) = head_fields(text);
        self.content_length = content_length;
        BareEvent::HeadersDone { status, content_length, chunked, body_len: self.body_received }
    }

    /// The body bytes that came with the head.
    pub fn initial_body(&self) -> (r: &[u8])
        requires
            self.wf(),
            self.spec_headers_done(),
        ensures
            r@ == self.spec_head().subrange(self.spec_body_start() as int, self.spec_head().len() as int),
    {
        slice_subrange(self.head.as_slice(), self.body_start, self.head.len())
    }

    /// A progress line, when the body reached a mebibyte not shown yet: the
    /// mebibytes received, and with an announced length the percentage
    /// received and the total in mebibytes.
    pub fn progress(&mut self) -> (r: Option<ProgressLine>)
        requires
            old(self).spec_content_length() matches Some(c) ==> c > 0 && old(self).spec_body() * 100
                <= u64::MAX,
        ensures
            final(self).spec_head() == old(self).spec_head(),
            final(self).spec_headers_done() == old(self).spec_headers_done(),
            final(self).spec_status() == old(self).spec_status(),
            final(self).spec_content_length() == old(self).spec_content_length(),
            final(self).spec_body_start() == old(self).spec_body_start(),
            final(self).spec_body() == old(self).spec_body(),
            final(self).spec_total() == old(self).spec_total(),
            final(self).spec_start() == old(self).spec_start(),
            final(self).spec_last_activity() == old(self).spec_last_activity(),
            final(self).wf() == old(self).wf(),
            ({
                let mb = old(self).spec_body() / MIB;
                if mb > old(self).spec_shown_mb() {
                    &&& final(self).spec_shown_mb() == mb
                    &&& r == Some(
                        ProgressLine {
                            mb: mb as usize,
                            percent: match old(self).spec_content_length() {
                                Some(c) => Some(((old(self).spec_body() * 100) / (c as int)) as u64),
                                None => None,
                            },
                            total_mb: match old(self).spec_content_length() {
                                Some(c) => Some((c / MIB) as usize),
                                None => None,
                            },
                        },
                    )
                } else {
                    &&& final(self).spec_shown_mb() == old(self).spec_shown_mb()
                    &&& r is None
                }
            }),
    {
        let mb = self.body_received / MIB;
        if mb <= self.shown_mb {
            return None;
        }
        self.shown_mb = mb;
        let (percent, total_mb) = match self.content_length {
            Some(c) => {
                let body = self.body_received as u64;
                (Some((body * 100) / (c as u64)), Some(c / MIB))
            },
            None => (None, None),
        };
        Some(ProgressLine { mb, percent, total_mb })
    }

    /// Whether the transfer is over, once the head is complete: the
    /// announced length arrived, or the server closed with nothing left to
    /// read.
    pub fn end_check(&self, open: bool, recv_queue_empty: bool) -> (r: BareEnd)
        ensures
            r == (if !self.spec_headers_done() {
                BareEnd::Continue
            } else if self.spec_content_length() matches Some(c) && self.spec_body() >= c {
                BareEnd::Complete
            } else if !open && recv_queue_empty {
                if self.spec_content_length() is Some {
                    BareEnd::ClosedShort
                } else {
                    BareEnd::CompleteOnClose
                }
            } else {
                BareEnd::Continue
            }),
    {
        if !self.headers_done {
            return BareEnd::Continue;
        }
        if let Some(c) = self.content_length {
            if self.body_received >= c {
                return BareEnd::Complete;
            }
        }
        if !open && recv_queue_empty {
            if self.content_length.is_some() {
                BareEnd::ClosedShort
            } else {
                BareEnd::CompleteOnClose
            }
        } else {
            BareEnd::Continue
        }
    }

    /// The timeout that expired at `now`, if any: the whole transfer's
    /// first, then (once the head is complete) the one without data.
    pub fn timeout(&self, now: u64, recv_timeout: u64, idle_timeout: u64) -> (r: Option<BareTimeout>)
        ensures
            r == (if elapsed_ticks(self.spec_start(), now) > recv_timeout {
                Some(BareTimeout::Total)
            } else if elapsed_ticks(self.spec_last_activity(), now) > idle_timeout
                && self.spec_headers_done() {
                Some(BareTimeout::Stalled)
            } else {
                None
            }),
    {
        if elapsed(self.start, now) > recv_timeout {
            Some(BareTimeout::Total)
        } else if elapsed(self.last_activity, now) > idle_timeout && self.headers_done {
            Some(BareTimeout::Stalled)
        } else {
            None
        }
    }
}

/// Every byte received is counted once: before the head is complete all of
/// it is head, and after it the total is the head up to and including its
/// blank line plus the body; the head never outgrows its buffer.
pub proof fn lemma_received_accounts(r: BareReceiver)
    requires
        r.wf(),
    ensures
        r.spec_head().len() <= BARE_HEAD_CAPACITY,
        !r.spec_headers_done() ==> r.spec_total() == r.spec_head().len() && r.spec_body() == 0,
        r.spec_headers_done() ==> r.spec_body_start() <= r.spec_head().len() && r.spec_total()
            == r.spec_body_start() + r.spec_body(),
{
}

} // verus!
