use vstd::prelude::*;

verus! {

/// The newline byte that ends a line of command output.
pub open spec fn newline() -> u8 {
    10u8
}

/// `s` holds no newline byte.
pub open spec fn no_newline(s: Seq<u8>) -> bool {
    forall|i: int| 0 <= i < s.len() ==> s[i] != newline()
}

/// The bytes before the first newline of `s` and the bytes after it;
/// `None` when `s` holds no newline.
pub open spec fn split_first_line(s: Seq<u8>) -> Option<(Seq<u8>, Seq<u8>)>
    decreases s.len(),
{
    if s.len() == 0 {
        None
    } else if s[0] == newline() {
        Some((Seq::empty(), s.subrange(1, s.len() as int)))
    } else {
        match split_first_line(s.subrange(1, s.len() as int)) {
            Some((line, rest)) => Some((seq![s[0]] + line, rest)),
            None => None,
        }
    }
}

/// A line without newline, its newline and what follows make up exactly one
/// split of their bytes.
pub proof fn lemma_split_first_line(line: Seq<u8>, rest: Seq<u8>)
    requires
        no_newline(line),
    ensures
        split_first_line(line + seq![newline()] + rest) == Some((line, rest)),
    decreases line.len(),
{
    let s = line + seq![newline()] + rest;
    if line.len() == 0 {
    } else {
        let tail = line.subrange(1, line.len() as int);
        lemma_split_first_line(tail, rest);
        assert(s.subrange(1, s.len() as int) =~= tail + seq![newline()] + rest);
    }
}

/// A sequence without newline has no split.
pub proof fn lemma_no_split(s: Seq<u8>)
    requires
        no_newline(s),
    ensures
        split_first_line(s) is None,
    decreases s.len(),
{
    if s.len() > 0 {
        lemma_no_split(s.subrange(1, s.len() as int));
    }
}

/// A split line is shorter than what it was split from.
pub proof fn lemma_split_shorter(s: Seq<u8>)
    ensures
        split_first_line(s) matches Some((line, rest)) ==> line.len() + 1 + rest.len() == s.len(),
    decreases s.len(),
{
    if s.len() > 0 && s[0] != newline() {
        lemma_split_shorter(s.subrange(1, s.len() as int));
    }
}

/// The complete lines of `s`, in order, and the bytes after the last
/// newline.
pub open spec fn lines_of(s: Seq<u8>) -> (Seq<Seq<u8>>, Seq<u8>)
    decreases s.len(),
{
    match split_first_line(s) {
        None => (Seq::empty(), s),
        Some((line, rest)) => {
            proof {
                lemma_split_shorter(s);
            }
            let (lines, tail) = lines_of(rest);
            (seq![line] + lines, tail)
        },
    }
}

/// The bytes of `lines`, each followed by a newline.
pub open spec fn join_lines(lines: Seq<Seq<u8>>) -> Seq<u8>
    decreases lines.len(),
{
    if lines.len() == 0 {
        Seq::empty()
    } else {
        join_lines(lines.drop_last()) + lines.last() + seq![newline()]
    }
}

/// The bytes of lines, taken from the front: the first line, its newline,
/// then the others.
pub proof fn lemma_join_lines_front(lines: Seq<Seq<u8>>)
    requires
        lines.len() > 0,
    ensures
        join_lines(lines) == lines[0] + seq![newline()] + join_lines(lines.drop_first()),
    decreases lines.len(),
{
    if lines.len() == 1 {
        assert(lines.drop_last() =~= Seq::<Seq<u8>>::empty());
        assert(lines.drop_first() =~= Seq::<Seq<u8>>::empty());
    } else {
        lemma_join_lines_front(lines.drop_last());
        assert(lines.drop_last().drop_first() =~= lines.drop_first().drop_last());
    }
}

/// Output split into lines does not depend on how it arrived: whatever bytes
/// are made of newline-free lines, each with its newline, and a newline-free
/// tail, those lines and that tail are the complete lines of the bytes and
/// what follows them.
pub proof fn lines_are_determined(lines: Seq<Seq<u8>>, tail: Seq<u8>)
    requires
        forall|i: int| 0 <= i < lines.len() ==> no_newline(#[trigger] lines[i]),
        no_newline(tail),
    ensures
        lines_of(join_lines(lines) + tail) == (lines, tail),
    decreases lines.len(),
{
    if lines.len() == 0 {
        lemma_no_split(tail);
    } else {
        let rest = lines.drop_first();
        lemma_join_lines_front(lines);
        assert(forall|i: int| 0 <= i < rest.len() ==> no_newline(#[trigger] rest[i]));
        lines_are_determined(rest, tail);
        let s = join_lines(lines) + tail;
        assert(s =~= lines[0] + seq![newline()] + (join_lines(rest) + tail));
        lemma_split_first_line(lines[0], join_lines(rest) + tail);
    }
}

/// Split into its own struct to be tested nicer
#[derive(Debug)]
pub struct LogBuffer {
    buffer: Vec<u8>,
}

impl View for LogBuffer {
    type V = Seq<u8>;

    /// The bytes received and not yet handed out as a line.
    closed spec fn view(&self) -> Seq<u8> {
        self.buffer@
    }
}

impl LogBuffer {
    /// An empty buffer.
    pub fn new() -> (res: Self)
        ensures
            res@ == Seq::<u8>::empty(),
    {
        Self { buffer: Vec::new() }
    }

    /// Appends `slice` to the pending bytes.
    pub fn process_slice(&mut self, slice: &[u8])
        ensures
            final(self)@ == old(self)@ + slice@,
    {
        self.buffer.extend_from_slice(slice);
    }

    /// Takes the bytes before the first newline out of the buffer, and drops
    /// the newline. Returns `None`, and leaves the buffer as it is, when no
    /// newline was received yet.
    pub fn next_line(&mut self) -> (line: Option<Vec<u8>>)
        ensures
            no_newline(old(self)@) <==> line is None,
            line is None ==> final(self)@ == old(self)@,
            line matches Some(l) ==> {
                &&& no_newline(l@)
                &&& old(self)@ == l@ + seq![newline()] + final(self)@
                &&& split_first_line(old(self)@) == Some((l@, final(self)@))
            },
            line is None ==> split_first_line(old(self)@) is None,
    {
        let len = self.buffer.len();
        let mut i: usize = 0;
        while i < len
            invariant
                len == self.buffer@.len(),
                self.buffer@ == old(self)@,
                0 <= i <= len,
                forall|j: int| 0 <= j < i ==> self.buffer@[j] != newline(),
            decreases len - i,
        {
            if self.buffer[i] == 10u8 {
                let mut rest = self.buffer.split_off(i);
                let _newline = rest.remove(0);
                let mut line = rest;
                std::mem::swap(&mut line, &mut self.buffer);
                proof {
                    assert(old(self)@ =~= line@ + seq![newline()] + self.buffer@);
                    lemma_split_first_line(line@, self.buffer@);
                }
                return Some(line);
            }
            i = i + 1;
        }
        proof {
            lemma_no_split(self.buffer@);
        }
        None
    }

    /// Takes every complete line out of the buffer, in the order received.
    pub fn take_lines(&mut self) -> (lines: Vec<Vec<u8>>)
        ensures
            (lines@.map_values(|l: Vec<u8>| l@), final(self)@) == lines_of(old(self)@),
            no_newline(final(self)@),
            old(self)@ == join_lines(lines@.map_values(|l: Vec<u8>| l@)) + final(self)@,
            forall|i: int| 0 <= i < lines@.len() ==> no_newline(#[trigger] lines@[i]@),
    {
        let mut lines: Vec<Vec<u8>> = Vec::new();
        loop
            invariant
                old(self)@ == join_lines(lines@.map_values(|l: Vec<u8>| l@)) + self@,
                forall|i: int| 0 <= i < lines@.len() ==> no_newline(#[trigger] lines@[i]@),
            ensures
                no_newline(self@),
                old(self)@ == join_lines(lines@.map_values(|l: Vec<u8>| l@)) + self@,
                forall|i: int| 0 <= i < lines@.len() ==> no_newline(#[trigger] lines@[i]@),
            decreases self@.len(),
        {
            match self.next_line() {
                Some(line) => {
                    let ghost prev = lines@.map_values(|l: Vec<u8>| l@);
                    lines.push(line);
                    proof {
                        let now = lines@.map_values(|l: Vec<u8>| l@);
                        assert(now.drop_last() =~= prev);
                    }
                },
                None => {
                    break ;
                },
            }
        }
        proof {
            lines_are_determined(lines@.map_values(|l: Vec<u8>| l@), self@);
        }
        lines
    }
}

} // verus!
