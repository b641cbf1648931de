use vstd::prelude::*;
use vstd::string::StringSliceAdditionalSpecFns;

verus! {

/// The byte that ends a line of a log.
pub const NEWLINE: u8 = 10;

/// An append-only log: the bytes written so far, in the order of writing.
#[derive(Debug, Clone, PartialEq, Eq)]
pub struct LogStream {
    content: Vec<u8>,
}

impl View for LogStream {
    type V = Seq<u8>;

    closed spec fn view(&self) -> Seq<u8> {
        self.content@
    }
}

impl LogStream {
    /// An empty log.
    pub fn new() -> (stream: LogStream)
        ensures
            stream@ == Seq::<u8>::empty(),
    {
        LogStream { content: Vec::new() }
    }

    /// A log that holds `content`, as read back from where it is kept.
    pub fn from_bytes(content: Vec<u8>) -> (stream: LogStream)
        ensures
            stream@ == content@,
    {
        LogStream { content }
    }

    /// The number of bytes written so far.
    pub fn len(&self) -> (n: usize)
        ensures
            n == self@.len(),
    {
        self.content.len()
    }

    /// Everything written so far.
    pub fn as_bytes(&self) -> (bytes: &Vec<u8>)
        ensures
            bytes@ == self@,
    {
        &self.content
    }

    /// Adds `bytes` at the end.
    pub fn append_bytes(&mut self, bytes: &[u8])
        ensures
            final(self)@ == old(self)@ + bytes@,
    {
        self.content.extend_from_slice(bytes);
    }

    /// Adds the text at the end, as UTF-8.
    pub fn append(&mut self, text: &str)
        ensures
            final(self)@ == old(self)@ + text.spec_bytes(),
    {
        self.content.extend_from_slice(text.as_bytes());
    }

    /// Adds the text and a line end.
    pub fn append_line(&mut self, text: &str)
        ensures
            final(self)@ == old(self)@ + text.spec_bytes() + seq![NEWLINE],
    {
        self.content.extend_from_slice(text.as_bytes());
        self.content.push(NEWLINE);
    }
}

/// What a reader that stands at `cursor` has not yet seen of `content`:
/// everything from `cursor` on. A cursor beyond the end sees nothing.
pub open spec fn unread(content: Seq<u8>, cursor: nat) -> Seq<u8> {
    if cursor <= content.len() {
        content.subrange(cursor as int, content.len() as int)
    } else {
        Seq::empty()
    }
}

/// The reader of one log: it remembers how far it has read, and hands out
/// what was written since.
pub struct Tailer {
    cursor: usize,
    delivered: Ghost<Seq<u8>>,
}

impl Tailer {
    #[verifier::type_invariant]
    spec fn consistent(self) -> bool {
        self.cursor == self.delivered@.len()
    }

    /// The number of bytes read so far.
    pub closed spec fn cursor(self) -> nat {
        self.cursor as nat
    }

    /// Everything that `fetch_new` has handed out so far, joined in the
    /// order of the calls.
    pub closed spec fn delivered(self) -> Seq<u8> {
        self.delivered@
    }

    /// A reader that has read nothing yet.
    pub fn new() -> (tailer: Tailer)
        ensures
            tailer.cursor() == 0,
            tailer.delivered() == Seq::<u8>::empty(),
    {
        Tailer { cursor: 0, delivered: Ghost(Seq::empty()) }
    }

    /// The number of bytes read so far.
    pub fn position(&self) -> (at: usize)
        ensures
            at == self.cursor(),
            at == self.delivered().len(),
    {
        proof {
            use_type_invariant(self);
        }
        self.cursor
    }

    /// Hands out what was written to `stream` since the last call, and
    /// moves the cursor to the end. Nothing is handed out twice, and nothing
    /// is passed over: while the log only grows, all that was handed out so
    /// far is the log as it stands.
    pub fn fetch_new(&mut self, stream: &LogStream) -> (fresh: Vec<u8>)
        ensures
            fresh@ == unread(stream@, old(self).cursor()),
            final(self).cursor() == old(self).cursor() + fresh@.len(),
            final(self).delivered() == old(self).delivered() + fresh@,
            old(self).delivered().is_prefix_of(stream@) ==> final(self).delivered() == stream@,
    {
        proof {
            use_type_invariant(&*self);
        }
        let mut fresh: Vec<u8> = Vec::new();
        let bytes = stream.as_bytes();
        let start: usize = self.cursor;
        let end: usize = bytes.len();
        if start <= end {
            let mut at: usize = start;
            while at < end
                invariant
                    start <= at <= end,
                    end == bytes@.len(),
                    fresh@ == bytes@.subrange(start as int, at as int),
                decreases end - at,
            {
                fresh.push(bytes[at]);
                at = at + 1;
            }
            let ghost seen = self.delivered@ + fresh@;
            proof {
                if self.delivered@.is_prefix_of(stream@) {
                    assert(seen =~= stream@);
                }
            }
            *self = Tailer { cursor: end, delivered: Ghost(seen) };
        } else {
            assert(self.delivered@ + fresh@ =~= self.delivered@);
        }
        fresh
    }
}

/// What a reader that starts at `cursor` hands out when it fetches from each
/// of `snapshots` in turn, joined in that order.
pub open spec fn fetched_over(snapshots: Seq<Seq<u8>>, cursor: nat) -> Seq<u8>
    decreases snapshots.len(),
{
    if snapshots.len() == 0 {
        Seq::empty()
    } else {
        let first = unread(snapshots[0], cursor);
        first + fetched_over(snapshots.drop_first(), cursor + first.len())
    }
}

/// Whether each snapshot of a log extends the ones taken before it.
pub open spec fn only_grows(snapshots: Seq<Seq<u8>>) -> bool {
    forall|i: int, j: int|
        0 <= i <= j < snapshots.len() ==> (#[trigger] snapshots[i]).is_prefix_of(
            #[trigger] snapshots[j],
        )
}

/// A reader that has read the first `cursor` bytes of a growing log, and then
/// fetches from each later snapshot, has in the end been handed the whole of
/// the last snapshot after those first bytes.
pub proof fn lemma_fetches_from_cursor(snapshots: Seq<Seq<u8>>, cursor: nat)
    requires
        snapshots.len() > 0,
        only_grows(snapshots),
        cursor <= snapshots[0].len(),
    ensures
        fetched_over(snapshots, cursor) == unread(snapshots.last(), cursor),
    decreases snapshots.len(),
{
    let first = unread(snapshots[0], cursor);
    let rest = snapshots.drop_first();
    if rest.len() == 0 {
        assert(fetched_over(rest, cursor + first.len()) == Seq::<u8>::empty());
        assert(snapshots.last() == snapshots[0]);
        assert(first + Seq::<u8>::empty() =~= first);
    } else {
        assert forall|i: int, j: int| 0 <= i <= j < rest.len() implies (#[trigger] rest[i]).is_prefix_of(
            #[trigger] rest[j],
        ) by {
            assert(rest[i] == snapshots[i + 1]);
            assert(rest[j] == snapshots[j + 1]);
        }
        assert(rest[0] == snapshots[1]);
        assert(snapshots[0].is_prefix_of(snapshots[1]));
        assert(rest.last() == snapshots.last());
        assert(snapshots[0].is_prefix_of(snapshots[snapshots.len() - 1]));
        lemma_fetches_from_cursor(rest, cursor + first.len());
        assert(first + unread(rest.last(), cursor + first.len()) =~= unread(
            snapshots.last(),
            cursor,
        ));
    }
}

/// Whatever the moments at which a fresh reader is asked, what it hands out
/// over all the calls, joined, is the log as it stood at the last call: no
/// byte is missing and none comes twice.
pub proof fn lemma_fetches_join_to_stream(snapshots: Seq<Seq<u8>>)
    requires
        snapshots.len() > 0,
        only_grows(snapshots),
    ensures
        fetched_over(snapshots, 0) == snapshots.last(),
{
    lemma_fetches_from_cursor(snapshots, 0);
    assert(unread(snapshots.last(), 0) =~= snapshots.last());
}

/// The lines that end within `bytes`, without their line ends, and after
/// them what follows the last line end.
pub open spec fn scanned(bytes: Seq<u8>) -> (Seq<Seq<u8>>, Seq<u8>)
    decreases bytes.len(),
{
    if bytes.len() == 0 {
        (Seq::empty(), Seq::empty())
    } else {
        let (lines, open_line) = scanned(bytes.drop_last());
        if bytes.last() == NEWLINE {
            (lines.push(open_line), Seq::empty())
        } else {
            (lines, open_line.push(bytes.last()))
        }
    }
}

/// The lines of `bytes`, without their line ends. What follows the last line
/// end is a line too, unless it is empty.
pub open spec fn lines_of(bytes: Seq<u8>) -> Seq<Seq<u8>> {
    let (lines, open_line) = scanned(bytes);
    if open_line.len() > 0 {
        lines.push(open_line)
    } else {
        lines
    }
}

/// The lines joined again, each with a line end behind it.
pub open spec fn unlines(lines: Seq<Seq<u8>>) -> Seq<u8>
    decreases lines.len(),
{
    if lines.len() == 0 {
        Seq::empty()
    } else {
        unlines(lines.drop_last()) + lines.last() + seq![NEWLINE]
    }
}

/// What each of `lines` holds.
pub open spec fn contents(lines: Seq<Vec<u8>>) -> Seq<Seq<u8>> {
    Seq::new(lines.len(), |i: int| lines[i]@)
}

/// Scanning loses nothing: the lines that ended, joined again, and what
/// follows them are the bytes that were scanned. No line holds a line end.
pub proof fn lemma_scanned_keeps_content(bytes: Seq<u8>)
    ensures
        unlines(scanned(bytes).0) + scanned(bytes).1 == bytes,
        forall|i: int, j: int|
            0 <= i < scanned(bytes).0.len() && 0 <= j < scanned(bytes).0[i].len() ==> scanned(bytes).0[i][j]
                != NEWLINE,
        forall|j: int| 0 <= j < scanned(bytes).1.len() ==> scanned(bytes).1[j] != NEWLINE,
    decreases bytes.len(),
{
    if bytes.len() == 0 {
        assert(unlines(scanned(bytes).0) + scanned(bytes).1 =~= bytes);
    } else {
        let front = bytes.drop_last();
        lemma_scanned_keeps_content(front);
        let (lines, open_line) = scanned(front);
        if bytes.last() == NEWLINE {
            let all = lines.push(open_line);
            assert(all.drop_last() =~= lines);
            assert(all.last() == open_line);
            assert(unlines(all) + Seq::<u8>::empty() =~= (unlines(lines) + open_line).push(NEWLINE));
            assert(front.push(NEWLINE) =~= bytes);
        } else {
            assert(unlines(lines) + open_line.push(bytes.last()) =~= (unlines(lines) + open_line).push(
                bytes.last(),
            ));
            assert(front.push(bytes.last()) =~= bytes);
        }
    }
}

/// Splitting into lines loses nothing: the lines joined again are the bytes
/// that were split, with a line end added where the last line had none.
pub proof fn lemma_lines_keep_content(bytes: Seq<u8>)
    ensures
        unlines(lines_of(bytes)) == (if bytes.len() == 0 || bytes.last() == NEWLINE {
            bytes
        } else {
            bytes + seq![NEWLINE]
        }),
        forall|i: int, j: int|
            0 <= i < lines_of(bytes).len() && 0 <= j < lines_of(bytes)[i].len() ==> lines_of(bytes)[i][j]
                != NEWLINE,
{
    lemma_scanned_keeps_content(bytes);
    let (lines, open_line) = scanned(bytes);
    if open_line.len() > 0 {
        let all = lines.push(open_line);
        assert(all.drop_last() =~= lines);
        assert(all.last() == open_line);
        assert(bytes.len() > 0);
        assert(bytes.last() != NEWLINE);
    } else {
        assert(unlines(lines) + open_line =~= unlines(lines));
        if bytes.len() > 0 {
            assert(bytes.last() == NEWLINE);
        }
    }
}

/// Splits `bytes` into its lines.
pub fn split_lines(bytes: &Vec<u8>) -> (lines: Vec<Vec<u8>>)
    ensures
        contents(lines@) == lines_of(bytes@),
{
    let mut lines: Vec<Vec<u8>> = Vec::new();
    let mut open_line: Vec<u8> = Vec::new();
    let mut at: usize = 0;
    assert(bytes@.take(0) =~= Seq::<u8>::empty());
    assert(contents(lines@) =~= Seq::<Seq<u8>>::empty());
    while at < bytes.len()
        invariant
            at <= bytes@.len(),
            contents(lines@) == scanned(bytes@.take(at as int)).0,
            open_line@ == scanned(bytes@.take(at as int)).1,
        decreases bytes@.len() - at,
    {
        let byte: u8 = bytes[at];
        proof {
            let upto = bytes@.take(at + 1);
            assert(upto.drop_last() =~= bytes@.take(at as int));
            assert(upto.last() == byte);
        }
        if byte == NEWLINE {
            let ghost before = lines@;
            let ghost ended = open_line@;
            lines.push(open_line);
            open_line = Vec::new();
            assert(contents(lines@) =~= contents(before).push(ended));
        } else {
            open_line.push(byte);
        }
        at = at + 1;
    }
    assert(bytes@.take(at as int) =~= bytes@);
    if open_line.len() > 0 {
        let ghost before = lines@;
        let ghost ended = open_line@;
        lines.push(open_line);
        assert(contents(lines@) =~= contents(before).push(ended));
    }
    lines
}

} // verus!