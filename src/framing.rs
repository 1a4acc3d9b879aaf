use vstd::prelude::*;

verus! {

/// The byte that ends a request line.
pub const NEWLINE: u8 = 10;

/// Bytes trimmed from the end of a line: tab, line feed, vertical tab,
/// form feed, carriage return and space.
pub open spec fn is_blank(b: u8) -> bool {
    b == 9 || b == 10 || b == 11 || b == 12 || b == 13 || b == 32
}

/// `s` without its trailing blank bytes.
pub open spec fn trim_end(s: Seq<u8>) -> Seq<u8>
    decreases s.len(),
{
    if s.len() > 0 && is_blank(s.last()) {
        trim_end(s.drop_last())
    } else {
        s
    }
}

/// The lines completed so far and the bytes waiting for their newline,
/// after reading `s` from the start of a connection.
pub open spec fn frame(s: Seq<u8>) -> (Seq<Seq<u8>>, Seq<u8>)
    decreases s.len(),
{
    if s.len() == 0 {
        (Seq::empty(), Seq::empty())
    } else {
        let (lines, pending) = frame(s.drop_last());
        if s.last() == NEWLINE {
            (lines.push(trim_end(pending)), Seq::empty())
        } else {
            (lines, pending.push(s.last()))
        }
    }
}

/// Every line handed on for a connection whose whole input was `s`: each
/// completed line, then what was left unterminated at the end, if anything.
pub open spec fn lines_of(s: Seq<u8>) -> Seq<Seq<u8>> {
    let (lines, pending) = frame(s);
    if pending.len() > 0 {
        lines.push(trim_end(pending))
    } else {
        lines
    }
}

/// The contents of each line of a list.
pub open spec fn byte_lines(v: Seq<Vec<u8>>) -> Seq<Seq<u8>> {
    v.map_values(|l: Vec<u8>| l@)
}

pub fn is_blank_byte(b: u8) -> (r: bool)
    ensures
        r == is_blank(b),
{
    b == 9 || b == 10 || b == 11 || b == 12 || b == 13 || b == 32
}

/// A copy of `s` without its trailing blank bytes.
pub fn trim_end_bytes(s: &[u8]) -> (r: Vec<u8>)
    ensures
        r@ == trim_end(s@),
{
    let mut e: usize = s.len();
    assert(s@.take(e as int) =~= s@);
    while e > 0 && is_blank_byte(s[e - 1])
        invariant
            e <= s.len(),
            trim_end(s@.take(e as int)) == trim_end(s@),
        decreases e,
    {
        assert(s@.take(e as int).drop_last() =~= s@.take(e - 1));
        e = e - 1;
    }
    let mut r: Vec<u8> = Vec::new();
    let mut i: usize = 0;
    while i < e
        invariant
            e <= s.len(),
            i <= e,
            r@ =~= s@.take(i as int),
        decreases e - i,
    {
        r.push(s[i]);
        i = i + 1;
    }
    assert(r@ =~= s@.take(e as int));
    r
}

/// Cuts the bytes of one connection into request lines as they arrive.
pub struct LineFramer {
    pending: Vec<u8>,
}

impl View for LineFramer {
    type V = Seq<u8>;

    /// The bytes received since the last newline.
    closed spec fn view(&self) -> Seq<u8> {
        self.pending@
    }
}

impl LineFramer {
    pub fn new() -> (f: LineFramer)
        ensures
            f@ == Seq::<u8>::empty(),
    {
        LineFramer { pending: Vec::new() }
    }

    /// Takes one received byte. A newline completes the pending line, which
    /// comes back without its trailing blanks; any other byte is kept.
    pub fn push(&mut self, b: u8) -> (line: Option<Vec<u8>>)
        ensures
            b == NEWLINE ==> line is Some && line->Some_0@ == trim_end(old(self)@) && final(self)@
                == Seq::<u8>::empty(),
            b != NEWLINE ==> line is None && final(self)@ == old(self)@.push(b),
    {
        if b == NEWLINE {
            let line = trim_end_bytes(self.pending.as_slice());
            self.pending = Vec::new();
            Some(line)
        } else {
            self.pending.push(b);
            None
        }
    }

    /// At the end of the stream: what was left without a newline, trimmed,
    /// if anything was left.
    pub fn finish(&mut self) -> (line: Option<Vec<u8>>)
        ensures
            old(self)@.len() > 0 ==> line is Some && line->Some_0@ == trim_end(old(self)@),
            old(self)@.len() == 0 ==> line is None,
            final(self)@ == Seq::<u8>::empty(),
    {
        if self.pending.len() > 0 {
            let line = trim_end_bytes(self.pending.as_slice());
            self.pending = Vec::new();
            Some(line)
        } else {
            None
        }
    }
}

/// Every line that a connection whose whole input is `input` hands on, in
/// order.
pub fn split_lines(input: &[u8]) -> (lines: Vec<Vec<u8>>)
    ensures
        byte_lines(lines@) == lines_of(input@),
{
    let mut framer = LineFramer::new();
    let mut lines: Vec<Vec<u8>> = Vec::new();
    let mut i: usize = 0;
    while i < input.len()
        invariant
            i <= input.len(),
            byte_lines(lines@) == frame(input@.take(i as int)).0,
            framer@ == frame(input@.take(i as int)).1,
        decreases input.len() - i,
    {
        assert(input@.take(i + 1).drop_last() =~= input@.take(i as int));
        let ghost before = lines@;
        match framer.push(input[i]) {
            Some(line) => {
                lines.push(line);
                assert(byte_lines(lines@) =~= byte_lines(before).push(line@));
            },
            None => {},
        }
        i = i + 1;
        assert(byte_lines(lines@) =~= frame(input@.take(i as int)).0);
    }
    assert(input@.take(i as int) =~= input@);
    let ghost before = lines@;
    match framer.finish() {
        Some(line) => {
            lines.push(line);
            assert(byte_lines(lines@) =~= byte_lines(before).push(line@));
        },
        None => {},
    }
    assert(byte_lines(lines@) =~= lines_of(input@));
    lines
}

proof fn lemma_frame_extend(p: Seq<u8>, t: Seq<u8>)
    requires
        forall|i: int| 0 <= i < t.len() ==> t[i] != NEWLINE,
    ensures
        frame(p + t) == (frame(p).0, frame(p).1 + t),
    decreases t.len(),
{
    if t.len() == 0 {
        assert(p + t =~= p);
        assert(frame(p).1 + t =~= frame(p).1);
    } else {
        let u = t.drop_last();
        lemma_frame_extend(p, u);
        assert((p + t).drop_last() =~= p + u);
        assert(frame(p).1 + t =~= (frame(p).1 + u).push(t.last()));
    }
}

/// A last line that the peer sends without a newline before closing is still
/// handed on, once, trimmed, after every line that came before it.
pub proof fn lemma_unterminated_last_line(p: Seq<u8>, t: Seq<u8>)
    requires
        p.len() == 0 || p.last() == NEWLINE,
        t.len() > 0,
        forall|i: int| 0 <= i < t.len() ==> t[i] != NEWLINE,
    ensures
        lines_of(p + t) == lines_of(p).push(trim_end(t)),
{
    lemma_frame_extend(p, t);
    assert(frame(p).1 == Seq::<u8>::empty());
    assert(frame(p).1 + t =~= t);
}

} // verus!
