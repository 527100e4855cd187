//! Framing of Server-Sent-Events messages.
use vstd::prelude::*;
use vstd::string::*;
use crate::text::{push_char, pop_char};

verus! {

/// A line without the carriage return that ended it, if one did.
pub open spec fn drop_cr(line: Seq<char>) -> Seq<char> {
    if line.len() > 0 && line.last() == '\r' {
        line.drop_last()
    } else {
        line
    }
}

/// Reading `s` from the left: the lines already ended by a line feed, and the
/// text of the line not yet ended.
pub open spec fn line_scan(s: Seq<char>) -> (Seq<Seq<char>>, Seq<char>)
    decreases s.len(),
{
    if s.len() == 0 {
        (Seq::empty(), Seq::empty())
    } else {
        let (done, cur) = line_scan(s.drop_last());
        if s.last() == '\n' {
            (done.push(drop_cr(cur)), Seq::empty())
        } else {
            (done, cur.push(s.last()))
        }
    }
}

/// The lines of `s`: split at each line feed, a carriage return before the
/// line feed dropped, and no empty line after a final line feed.
pub open spec fn lines_of(s: Seq<char>) -> Seq<Seq<char>> {
    let (done, cur) = line_scan(s);
    if cur.len() > 0 {
        done.push(cur)
    } else {
        done
    }
}

/// One `data: ` field per line, each ended by a line feed.
pub open spec fn data_fields(lines: Seq<Seq<char>>) -> Seq<char>
    decreases lines.len(),
{
    if lines.len() == 0 {
        Seq::empty()
    } else {
        data_fields(lines.drop_last()) + "data: "@ + lines.last() + "\n"@
    }
}

/// The `event: ` field, present only for a non-empty event name.
pub open spec fn event_field(event: Seq<char>) -> Seq<char> {
    if event.len() > 0 {
        "event: "@ + event + "\n"@
    } else {
        Seq::empty()
    }
}

/// A whole message: the event field, the data fields, and the blank line that
/// ends the message.
pub open spec fn sse_frame(event: Seq<char>, data: Seq<char>) -> Seq<char> {
    event_field(event) + data_fields(lines_of(data)) + "\n"@
}

/// Appends the data field of one line.
fn push_data_field(out: &mut String, line: &str)
    ensures
        final(out)@ == old(out)@ + "data: "@ + line@ + "\n"@,
{
    out.append("data: ");
    out.append(line);
    out.append("\n");
}

/// Formats a Server-Sent-Events message with the event name `event` and the
/// payload `data`, one `data:` field per line of the payload.
pub fn sse_message(event: &str, data: &str) -> (r: String)
    ensures
        r@ == sse_frame(event@, data@),
{
    let mut out = String::new();
    if !event.is_empty() {
        out.append("event: ");
        out.append(event);
        out.append("\n");
    }
    proof {
        assert(event@.len() == 0 ==> event@ =~= Seq::<char>::empty());
    }
    let ghost head = out@;
    assert(head == event_field(event@));
    let n = data.unicode_len();
    let mut cur = String::new();
    let mut i: usize = 0;
    while i < n
        invariant
            n == data@.len(),
            i <= n,
            head == event_field(event@),
            out@ == head + data_fields(line_scan(data@.subrange(0, i as int)).0),
            cur@ == line_scan(data@.subrange(0, i as int)).1,
        decreases n - i,
    {
        let c = data.get_char(i);
        let ghost prev = data@.subrange(0, i as int);
        assert(data@.subrange(0, i + 1 as int).drop_last() == prev);
        if c == '\n' {
            let ghost done = line_scan(prev).0;
            if cur.unicode_len() > 0 && cur.as_str().get_char(cur.unicode_len() - 1) == '\r' {
                pop_char(&mut cur);
            }
            assert(cur@ == drop_cr(line_scan(prev).1));
            push_data_field(&mut out, cur.as_str());
            assert(done.push(cur@).drop_last() == done);
            assert(out@ == head + data_fields(done.push(cur@)));
            cur = String::new();
        } else {
            push_char(&mut cur, c);
        }
        i = i + 1;
    }
    assert(data@.subrange(0, n as int) == data@);
    if cur.unicode_len() > 0 {
        let ghost done = line_scan(data@).0;
        push_data_field(&mut out, cur.as_str());
        assert(done.push(cur@).drop_last() == done);
        assert(out@ == head + data_fields(done.push(cur@)));
    }
    out.append("\n");
    out
}

} // verus!
