//! What the tools `cat` and `ls` compute.

use vstd::prelude::*;
use vstd::string::*;

use crate::stat::FileStat;
use crate::text;
use crate::text::{lossy_text, push_numeral};

verus! {

// ── cat ─────────────────────────────────────────────────────────────────────

/// A file that is being read piece by piece, into a buffer as long as the file
/// is said to be.
#[derive(Debug)]
pub struct Fetch {
    pub buf: Vec<u8>,
    /// How much of the buffer is filled.
    pub offset: usize,
    /// Whether the file has ended.
    pub ended: bool,
}

impl Fetch {
    /// The part that is filled lies within the buffer.
    pub open spec fn wf(&self) -> bool {
        self.offset <= self.buf@.len()
    }

    /// Whether another read is wanted: the buffer is not full and the file has
    /// not ended.
    pub open spec fn wants_more(&self) -> bool {
        !self.ended && self.offset < self.buf@.len()
    }

    /// A file of that size of which nothing is read.
    pub fn new(size: usize) -> (r: Fetch)
        ensures
            r.wf(),
            r.buf@ == Seq::new(size as nat, |i: int| 0u8),
            r.offset == 0,
            !r.ended,
    {
        let buf: Vec<u8> = vec![0u8; size];
        assert(buf@ =~= Seq::new(size as nat, |i: int| 0u8));
        Fetch { buf, offset: 0, ended: false }
    }

    /// Where the next read begins, in the file and in the buffer, or nothing
    /// where no read is wanted.
    pub fn next_read(&self) -> (r: Option<usize>)
        ensures
            r == if self.wants_more() {
                Some(self.offset)
            } else {
                None
            },
            r is Some <==> !self.ended && self.offset < self.buf@.len(),
            r is Some ==> r == Some(self.offset),
    {
        if !self.ended && self.offset < self.buf.len() {
            Some(self.offset)
        } else {
            None
        }
    }

    /// Takes note of a read that put `n` bytes where the next read begins. One
    /// that put none there is the end of the file.
    pub fn advance(&mut self, n: usize)
        requires
            old(self).wf(),
            old(self).wants_more(),
            n <= old(self).buf@.len() - old(self).offset,
        ensures
            final(self).wf(),
            final(self).buf == old(self).buf,
            final(self).offset == old(self).offset + n,
            final(self).ended == (n == 0),
    {
        if n == 0 {
            self.ended = true;
        } else {
            assert(self.offset + n <= self.buf.len());
            self.offset = self.offset + n;
        }
    }

    /// What was read, as text.
    pub fn text(&self) -> (r: String)
        requires
            self.wf(),
        ensures
            r@ == text::lossy_utf8(self.buf@.take(self.offset as int)),
    {
        let mut read: Vec<u8> = Vec::new();
        let mut i: usize = 0;
        while i < self.offset
            invariant
                i <= self.offset <= self.buf@.len(),
                read@ == self.buf@.take(i as int),
            decreases self.offset - i,
        {
            read.push(self.buf[i]);
            i += 1;
        }
        lossy_text(read.as_slice())
    }
}

/// Whether what was read so far is the beginning of the file `data`, and the end
/// of the file was seen only where it is.
pub open spec fn is_prefix_read(f: Fetch, data: Seq<u8>) -> bool {
    &&& f.wf()
    &&& f.offset <= data.len()
    &&& f.buf@.take(f.offset as int) == data.take(f.offset as int)
    &&& f.ended ==> f.offset == data.len()
}

/// The file before and after a read that was answered from `data`: where there is
/// something left of it at least one byte came, and what came is what stands
/// there.
pub open spec fn honest_read(before: Fetch, after: Fetch, data: Seq<u8>) -> bool {
    let from = before.offset as int;
    let to = after.offset as int;
    &&& before.wants_more()
    &&& from <= to <= before.buf@.len()
    &&& to <= data.len()
    &&& to == from ==> to == data.len()
    &&& after.buf@ == before.buf@.take(from) + data.subrange(from, to) + before.buf@.skip(to)
    &&& after.ended == (to == from)
}

/// The course of a file of which nothing was read at first, and which then came
/// in reads that were answered from `data`.
pub open spec fn is_course(states: Seq<Fetch>, data: Seq<u8>) -> bool {
    &&& states.len() > 0
    &&& states[0].offset == 0
    &&& !states[0].ended
    &&& forall|i: int|
        0 < i < states.len() ==> honest_read(states[i - 1], #[trigger] states[i], data)
}

proof fn lemma_prefix_grows(before: Fetch, after: Fetch, data: Seq<u8>)
    requires
        is_prefix_read(before, data),
        honest_read(before, after, data),
    ensures
        is_prefix_read(after, data),
        after.buf@.len() == before.buf@.len(),
{
    assert(after.buf@.take(after.offset as int) =~= data.take(after.offset as int)) by {
        assert forall|i: int| 0 <= i < after.offset implies after.buf@[i] == data[i] by {
            if i < before.offset {
                assert(after.buf@[i] == before.buf@.take(before.offset as int)[i]);
                assert(data.take(before.offset as int)[i] == data[i]);
            }
        }
    }
}

/// However a file comes piece by piece, what was read so far is its beginning,
/// and once no more is wanted it is all of it, up to the size that the file was
/// said to have.
pub proof fn law_fetch_reads_the_file(states: Seq<Fetch>, data: Seq<u8>)
    requires
        is_course(states, data),
    ensures
        is_prefix_read(states.last(), data),
        states.last().buf@.len() == states[0].buf@.len(),
        !states.last().wants_more() ==> states.last().buf@.take(states.last().offset as int)
            == if states[0].buf@.len() <= data.len() {
            data.take(states[0].buf@.len() as int)
        } else {
            data
        },
    decreases states.len(),
{
    let last = states.last();
    if states.len() == 1 {
        assert(last.buf@.take(0) =~= data.take(0));
    } else {
        let earlier = states.drop_last();
        assert forall|i: int| 0 < i < earlier.len() implies honest_read(
            earlier[i - 1],
            #[trigger] earlier[i],
            data,
        ) by {
            assert(honest_read(states[i - 1], states[i], data));
        }
        law_fetch_reads_the_file(earlier, data);
        assert(honest_read(states[states.len() - 2], states[states.len() - 1], data));
        lemma_prefix_grows(earlier.last(), last, data);
    }
    if last.offset == data.len() {
        assert(data.take(last.offset as int) =~= data);
    }
}

// ── ls ──────────────────────────────────────────────────────────────────────

/// A path without the slashes at its end.
pub open spec fn trim_slashes(path: Seq<char>) -> Seq<char>
    decreases path.len(),
{
    if path.len() > 0 && path.last() == '/' {
        trim_slashes(path.drop_last())
    } else {
        path
    }
}

/// The path under which `ls` asks for the attributes of the entry `name` of the
/// directory `path`.
pub fn entry_path(path: &str, name: &str) -> (r: String)
    ensures
        r@ == trim_slashes(path@) + "/"@ + name@,
{
    let mut n: usize = path.unicode_len();
    assert(path@.take(n as int) =~= path@);
    while n > 0 && path.get_char(n - 1) == '/'
        invariant
            n <= path@.len(),
            trim_slashes(path@.take(n as int)) == trim_slashes(path@),
        decreases n,
    {
        assert(path@.take(n as int).drop_last() =~= path@.take(n - 1));
        n -= 1;
    }
    assert(path@.take(n as int) =~= path@.subrange(0, n as int));
    let mut out = String::new();
    out.append(path.substring_char(0, n));
    out.append("/");
    out.append(name);
    assert(out@ =~= trim_slashes(path@) + "/"@ + name@);
    out
}

/// The letter for the kind of a file: `d` where the bit of a directory is set in
/// its mode, `l` where the bits of a symbolic link are, and a dash otherwise.
pub open spec fn type_letter(mode: u64) -> Seq<char> {
    if mode & 0o40000 != 0 {
        "d"@
    } else if mode & 0o120000 == 0o120000 {
        "l"@
    } else {
        "-"@
    }
}

/// `n` spaces.
pub open spec fn spaces(n: nat) -> Seq<char> {
    Seq::new(n, |i: int| ' ')
}

/// The text, with as many spaces before it as make it ten characters wide.
pub open spec fn right_aligned(text: Seq<char>) -> Seq<char> {
    if text.len() < 10 {
        spaces((10 - text.len()) as nat) + text
    } else {
        text
    }
}

fn push_right_aligned(out: &mut String, text: &str)
    ensures
        final(out)@ == old(out)@ + right_aligned(text@),
{
    let len: usize = text.unicode_len();
    let mut missing: usize = if len < 10 {
        10 - len
    } else {
        0
    };
    let ghost before = out@;
    let ghost all = missing as nat;
    assert(out@ =~= before + spaces(0));
    while missing > 0
        invariant
            missing <= all,
            out@ == before + spaces((all - missing) as nat),
        decreases missing,
    {
        proof {
            reveal_strlit(" ");
        }
        out.append(" ");
        missing -= 1;
        assert(out@ =~= before + spaces((all - missing) as nat));
    }
    out.append(text);
    assert(out@ =~= before + right_aligned(text@));
}

/// The line for an entry of which the attributes are known, or are not.
pub open spec fn entry_line(stat: Option<FileStat>, name: Seq<char>) -> Seq<char> {
    match stat {
        Some(st) => type_letter(st.mode) + " "@ + right_aligned(
            text::numeral(st.size as nat, 10),
        ) + "  "@ + name,
        None => "? "@ + right_aligned("?"@) + "  "@ + name,
    }
}

/// The line for an entry: its kind, its size and its name.
pub fn list_line(stat: Option<&FileStat>, name: &str) -> (r: String)
    ensures
        r@ == entry_line(
            match stat {
                Some(st) => Some(*st),
                None => None,
            },
            name@,
        ),
{
    let mut out = String::new();
    match stat {
        Some(st) => {
            if st.mode & 0o40000 != 0 {
                out.append("d");
            } else if st.mode & 0o120000 == 0o120000 {
                out.append("l");
            } else {
                out.append("-");
            }
            out.append(" ");
            let mut size = String::new();
            push_numeral(&mut size, st.size, 10);
            assert(size@ =~= text::numeral(st.size as nat, 10));
            push_right_aligned(&mut out, size.as_str());
            out.append("  ");
            out.append(name);
            assert(out@ =~= entry_line(Some(*st), name@));
        },
        None => {
            out.append("? ");
            push_right_aligned(&mut out, "?");
            out.append("  ");
            out.append(name);
            assert(out@ =~= entry_line(None, name@));
        },
    }
    out
}

/// The line at the end: how many entries there are.
pub fn count_line(count: usize) -> (r: String)
    ensures
        r@ == "\n"@ + text::numeral(count as nat, 10) + " entries"@,
{
    let mut out = String::new();
    out.append("\n");
    push_numeral(&mut out, count as u64, 10);
    out.append(" entries");
    assert(out@ =~= "\n"@ + text::numeral(count as nat, 10) + " entries"@);
    out
}

/// A trimmed path is the path up to the slashes at its end: what was taken off is
/// slashes alone, and what is left ends in none.
pub proof fn law_trimmed_path(path: Seq<char>)
    ensures
        trim_slashes(path).len() <= path.len(),
        trim_slashes(path) == path.take(trim_slashes(path).len() as int),
        forall|i: int| trim_slashes(path).len() <= i < path.len() ==> #[trigger] path[i] == '/',
        trim_slashes(path).len() > 0 ==> trim_slashes(path).last() != '/',
    decreases path.len(),
{
    if path.len() > 0 && path.last() == '/' {
        let shorter = path.drop_last();
        law_trimmed_path(shorter);
        assert forall|i: int| trim_slashes(path).len() <= i < path.len() implies #[trigger] path[i]
            == '/' by {
            if i < path.len() - 1 {
                assert(shorter[i] == path[i]);
            }
        }
        assert(shorter.take(trim_slashes(path).len() as int) =~= path.take(
            trim_slashes(path).len() as int,
        ));
    } else {
        assert(path.take(path.len() as int) =~= path);
    }
}

/// A text that is aligned to the right is at least ten characters wide, ends with
/// the text and has spaces alone before it.
pub proof fn law_right_aligned(text: Seq<char>)
    ensures
        right_aligned(text).len() == if text.len() < 10 {
            10
        } else {
            text.len()
        },
        right_aligned(text).skip(right_aligned(text).len() - text.len()) == text,
        forall|i: int|
            0 <= i < right_aligned(text).len() - text.len() ==> #[trigger] right_aligned(text)[i]
                == ' ',
{
    assert(right_aligned(text).skip(right_aligned(text).len() - text.len()) =~= text);
}

/// The line for an entry begins with a letter: `d` where bit fourteen of the mode is
/// set, else `l` where bits thirteen and fifteen both are, else a dash. The size
/// follows, in decimal and aligned to the right, and the name ends the line. Where
/// the attributes are not known, question marks stand for both.
pub proof fn law_entry_line(st: FileStat, name: Seq<char>)
    ensures
        st.mode & 0x4000 != 0 ==> entry_line(Some(st), name) == "d "@ + right_aligned(
            text::numeral(st.size as nat, 10),
        ) + "  "@ + name,
        st.mode & 0x4000 == 0 && st.mode & 0x2000 != 0 && st.mode & 0x8000 != 0 ==> entry_line(
            Some(st),
            name,
        ) == "l "@ + right_aligned(text::numeral(st.size as nat, 10)) + "  "@ + name,
        st.mode & 0x4000 == 0 && (st.mode & 0x2000 == 0 || st.mode & 0x8000 == 0) ==> entry_line(
            Some(st),
            name,
        ) == "- "@ + right_aligned(text::numeral(st.size as nat, 10)) + "  "@ + name,
        entry_line(None, name) == "? "@ + right_aligned("?"@) + "  "@ + name,
{
    let mode = st.mode;
    assert(mode & 0o120000 == 0o120000 <==> mode & 0x2000 != 0 && mode & 0x8000 != 0) by (bit_vector);
    reveal_strlit("d");
    reveal_strlit("l");
    reveal_strlit("-");
    reveal_strlit(" ");
    reveal_strlit("d ");
    reveal_strlit("l ");
    reveal_strlit("- ");
    assert("d"@ + " "@ =~= "d "@);
    assert("l"@ + " "@ =~= "l "@);
    assert("-"@ + " "@ =~= "- "@);
}

} // verus!
