use vstd::prelude::*;

verus! {

/// `delim` occurs in `doc` starting at index `i`.
pub open spec fn matches_at(doc: Seq<char>, delim: Seq<char>, i: int) -> bool {
    &&& 0 <= i
    &&& i + delim.len() <= doc.len()
    &&& doc.subrange(i, i + delim.len()) == delim
}

/// The first index `>= i` at which `delim` occurs in `doc`.
pub open spec fn find_from(doc: Seq<char>, delim: Seq<char>, i: int) -> Option<int>
    decreases doc.len() + 1 - i,
{
    if i < 0 || i + delim.len() > doc.len() {
        None
    } else if matches_at(doc, delim, i) {
        Some(i)
    } else {
        find_from(doc, delim, i + 1)
    }
}

/// The first index `>= i` that holds a newline.
pub open spec fn newline_from(doc: Seq<char>, i: int) -> Option<int>
    decreases doc.len() - i,
{
    if i < 0 || i >= doc.len() {
        None
    } else if doc[i] == '\n' {
        Some(i)
    } else {
        newline_from(doc, i + 1)
    }
}

/// Where the line that starts at `i` ends: its newline, or the end of `doc`.
pub open spec fn line_end(doc: Seq<char>, i: int) -> int {
    match newline_from(doc, i) {
        Some(n) => n,
        None => doc.len() as int,
    }
}

/// The text of the segment that starts at `pos`: up to the next delimiter,
/// or to the end of the document when none follows.
pub open spec fn segment_text(doc: Seq<char>, delim: Seq<char>, pos: int) -> Seq<char> {
    match find_from(doc, delim, pos) {
        Some(d) => doc.subrange(pos, d),
        None => doc.subrange(pos, doc.len() as int),
    }
}

/// The delimiter at `d` is followed by a non-empty last line that the
/// document's final newline ends. That line is not an annotation: it is the
/// next segment's text, and consumption stops right after the delimiter.
pub open spec fn is_closing_line(doc: Seq<char>, delim: Seq<char>, d: int) -> bool {
    &&& delim.len() > 0
    &&& d + delim.len() + 1 < doc.len()
    &&& newline_from(doc, d + delim.len()) == Some(doc.len() - 1)
}

/// The rest of the delimiter's line, untrimmed: empty when no delimiter
/// follows `pos`, or when that line is a closing line.
pub open spec fn note_line(doc: Seq<char>, delim: Seq<char>, pos: int) -> Seq<char> {
    match find_from(doc, delim, pos) {
        Some(d) => if is_closing_line(doc, delim, d) {
            Seq::empty()
        } else {
            doc.subrange(d + delim.len(), line_end(doc, d + delim.len()))
        },
        None => Seq::empty(),
    }
}

/// A newline ends the delimiter's line (and is consumed with it).
pub open spec fn note_has_newline(doc: Seq<char>, delim: Seq<char>, pos: int) -> bool {
    match find_from(doc, delim, pos) {
        Some(d) => !is_closing_line(doc, delim, d) && newline_from(doc, d + delim.len()) is Some,
        None => false,
    }
}

/// The cursor after consuming the segment at `pos`: past the delimiter, its
/// line and that line's newline; right after the delimiter before a closing
/// line; the end of the document when no delimiter follows.
pub open spec fn next_cursor(doc: Seq<char>, delim: Seq<char>, pos: int) -> int {
    match find_from(doc, delim, pos) {
        Some(d) => if is_closing_line(doc, delim, d) {
            d + delim.len()
        } else {
            match newline_from(doc, d + delim.len()) {
                Some(n) => n + 1,
                None => doc.len() as int,
            }
        },
        None => doc.len() as int,
    }
}

/// The characters that Unicode gives the White_Space property.
pub open spec fn is_white_space(c: char) -> bool {
    ||| ('\u{9}' <= c && c <= '\u{d}')
    ||| c == ' '
    ||| c == '\u{85}'
    ||| c == '\u{a0}'
    ||| c == '\u{1680}'
    ||| ('\u{2000}' <= c && c <= '\u{200a}')
    ||| c == '\u{2028}'
    ||| c == '\u{2029}'
    ||| c == '\u{202f}'
    ||| c == '\u{205f}'
    ||| c == '\u{3000}'
}

/// `s` without its leading white space.
pub open spec fn trim_start_of(s: Seq<char>) -> Seq<char>
    decreases s.len(),
{
    if s.len() > 0 && is_white_space(s[0]) {
        trim_start_of(s.drop_first())
    } else {
        s
    }
}

/// `s` without its trailing white space.
pub open spec fn trim_end_of(s: Seq<char>) -> Seq<char>
    decreases s.len(),
{
    if s.len() > 0 && is_white_space(s.last()) {
        trim_end_of(s.drop_last())
    } else {
        s
    }
}

/// `s` without white space at either end.
pub open spec fn trimmed(s: Seq<char>) -> Seq<char> {
    trim_end_of(trim_start_of(s))
}

/// The annotation carried by a delimiter's line: the trimmed line, when the line is not empty.
pub open spec fn note_of(line: Seq<char>) -> Option<Seq<char>> {
    if line.len() > 0 {
        Some(trimmed(line))
    } else {
        None
    }
}

/// The segment at cursor `pos` with its annotation, or `None` once the
/// cursor has reached the end of the document.
pub open spec fn segment_at(doc: Seq<char>, delim: Seq<char>, pos: int) -> Option<
    (Seq<char>, Option<Seq<char>>),
> {
    if pos >= doc.len() {
        None
    } else {
        Some((segment_text(doc, delim, pos), note_of(note_line(doc, delim, pos))))
    }
}

/// What one step consumes, rebuilt from its parts: the text, then the
/// delimiter, its line and that line's newline where they are present.
pub open spec fn piece(doc: Seq<char>, delim: Seq<char>, pos: int) -> Seq<char> {
    match find_from(doc, delim, pos) {
        Some(d) => segment_text(doc, delim, pos) + delim + note_line(doc, delim, pos) + (
        if note_has_newline(doc, delim, pos) {
            seq!['\n']
        } else {
            Seq::empty()
        }),
        None => segment_text(doc, delim, pos),
    }
}

/// The pieces of all steps from `pos` until the document is exhausted, concatenated.
pub open spec fn rebuilt(doc: Seq<char>, delim: Seq<char>, pos: int) -> Seq<char>
    decreases doc.len() - pos,
{
    if pos < 0 || pos >= doc.len() || next_cursor(doc, delim, pos) <= pos || next_cursor(
        doc,
        delim,
        pos,
    ) > doc.len() {
        Seq::empty()
    } else {
        piece(doc, delim, pos) + rebuilt(doc, delim, next_cursor(doc, delim, pos))
    }
}

/// A match found from `i` is the first one at or after `i`.
pub proof fn lemma_find_from(doc: Seq<char>, delim: Seq<char>, i: int)
    requires
        0 <= i,
    ensures
        match find_from(doc, delim, i) {
            Some(d) => i <= d && matches_at(doc, delim, d) && forall|k: int|
                i <= k < d ==> !matches_at(doc, delim, k),
            None => forall|k: int| i <= k ==> !matches_at(doc, delim, k),
        },
    decreases doc.len() + 1 - i,
{
    if i + delim.len() > doc.len() {
    } else if matches_at(doc, delim, i) {
    } else {
        lemma_find_from(doc, delim, i + 1);
    }
}

/// A newline found from `i` is the first one at or after `i`.
pub proof fn lemma_newline_from(doc: Seq<char>, i: int)
    requires
        0 <= i,
    ensures
        match newline_from(doc, i) {
            Some(n) => i <= n < doc.len() && doc[n] == '\n' && forall|k: int|
                i <= k < n ==> doc[k] != '\n',
            None => forall|k: int| i <= k < doc.len() ==> doc[k] != '\n',
        },
    decreases doc.len() - i,
{
    if i >= doc.len() {
    } else if doc[i] == '\n' {
    } else {
        lemma_newline_from(doc, i + 1);
    }
}

/// One step consumes exactly the document between the cursor and the next cursor.
pub proof fn lemma_piece(doc: Seq<char>, delim: Seq<char>, pos: int)
    requires
        0 <= pos < doc.len(),
    ensures
        pos < next_cursor(doc, delim, pos) <= doc.len(),
        piece(doc, delim, pos) == doc.subrange(pos, next_cursor(doc, delim, pos)),
{
    lemma_find_from(doc, delim, pos);
    match find_from(doc, delim, pos) {
        Some(d) => {
            let a = d + delim.len();
            lemma_newline_from(doc, a);
            let tail: Seq<char> = if note_has_newline(doc, delim, pos) {
                seq!['\n']
            } else {
                Seq::empty()
            };
            if is_closing_line(doc, delim, d) {
                assert(doc.subrange(pos, d) + doc.subrange(d, a) + Seq::<char>::empty() + tail
                    =~= doc.subrange(pos, next_cursor(doc, delim, pos)));
            } else {
                let e = line_end(doc, a);
                assert(doc.subrange(pos, d) + doc.subrange(d, a) + doc.subrange(a, e) + tail
                    =~= doc.subrange(pos, next_cursor(doc, delim, pos)));
            }
        },
        None => {},
    }
}

/// Consuming the segments from `pos` onwards and putting back, after each
/// text, its delimiter, the delimiter's line and newline, gives back the
/// document from `pos` exactly.
pub proof fn lemma_segments_rebuild_document(doc: Seq<char>, delim: Seq<char>, pos: int)
    requires
        0 <= pos <= doc.len(),
    ensures
        rebuilt(doc, delim, pos) == doc.subrange(pos, doc.len() as int),
    decreases doc.len() - pos,
{
    if pos == doc.len() {
        assert(doc.subrange(pos, doc.len() as int) =~= Seq::<char>::empty());
    } else {
        lemma_piece(doc, delim, pos);
        let n = next_cursor(doc, delim, pos);
        lemma_segments_rebuild_document(doc, delim, n);
        assert(doc.subrange(pos, n) + doc.subrange(n, doc.len() as int) =~= doc.subrange(
            pos,
            doc.len() as int,
        ));
    }
}

/// A document in which the delimiter never occurs is one segment, the whole
/// document without annotation; after it the document is exhausted.
pub proof fn lemma_no_delimiter_one_segment(doc: Seq<char>, delim: Seq<char>)
    requires
        doc.len() > 0,
        forall|k: int| !matches_at(doc, delim, k),
    ensures
        segment_at(doc, delim, 0) == Some((doc, None::<Seq<char>>)),
        next_cursor(doc, delim, 0) == doc.len(),
        segment_at(doc, delim, doc.len() as int) is None,
{
    lemma_find_from(doc, delim, 0);
    assert(doc.subrange(0, doc.len() as int) =~= doc);
}

/// Relies on `str::trim`: the text without the leading and trailing
/// characters that have the Unicode White_Space property.
#[verifier::external_body]
pub(crate) fn trim_text(s: &str) -> (r: String)
    ensures
        r@ == trimmed(s@),
{
    s.trim().to_string()
}

/// The characters of `s`, in order.
pub(crate) fn chars_of(s: &str) -> (v: Vec<char>)
    ensures
        v@ == s@,
{
    let mut v: Vec<char> = Vec::new();
    for c in it: s.chars()
        invariant
            it.seq() == s@,
            v@ == it.seq().take(it.index() as int),
    {
        v.push(c);
    }
    v
}

/// A document cut into segments at each occurrence of a delimiter, with a
/// cursor that marks how much of it has been handed out.
pub struct TextManager {
    content: String,
    text: Vec<char>,
    delimiter: Vec<char>,
    position: usize,
}

impl TextManager {
    /// The document.
    pub closed spec fn document(&self) -> Seq<char> {
        self.text@
    }

    /// The delimiter.
    pub closed spec fn delim(&self) -> Seq<char> {
        self.delimiter@
    }

    /// How many characters of the document have been consumed.
    pub closed spec fn cursor(&self) -> int {
        self.position as int
    }

    /// The character copy matches the text and the cursor lies within it.
    pub closed spec fn wf(&self) -> bool {
        &&& self.content@ == self.text@
        &&& self.position <= self.text@.len()
    }

    /// The cursor lies within the document.
    pub proof fn lemma_cursor_in_bounds(&self)
        requires
            self.wf(),
        ensures
            0 <= self.cursor() <= self.document().len(),
    {
    }

    /// Every segment has been handed out.
    pub open spec fn exhausted(&self) -> bool {
        self.cursor() >= self.document().len()
    }

    /// The segment that the next consumption hands out.
    pub open spec fn upcoming(&self) -> Option<(Seq<char>, Option<Seq<char>>)> {
        segment_at(self.document(), self.delim(), self.cursor())
    }

    /// A store over `content`, with the cursor at its start.
    pub fn new(content: String, delimiter: String) -> (r: TextManager)
        ensures
            r.wf(),
            r.document() == content@,
            r.delim() == delimiter@,
            r.cursor() == 0,
    {
        let text = chars_of(content.as_str());
        let delim = chars_of(delimiter.as_str());
        TextManager { content, text, delimiter: delim, position: 0 }
    }

    /// The delimiter occurs at `i`.
    fn delimiter_at(&self, i: usize) -> (r: bool)
        requires
            self.wf(),
        ensures
            r == matches_at(self.document(), self.delim(), i as int),
    {
        let n = self.text.len();
        let m = self.delimiter.len();
        if i > n || m > n - i {
            return false;
        }
        let mut j: usize = 0;
        while j < m
            invariant
                i + m <= n,
                n == self.text@.len(),
                m == self.delimiter@.len(),
                j <= m,
                forall|k: int| 0 <= k < j ==> self.text@[i + k] == self.delimiter@[k],
            decreases m - j,
        {
            if self.text[i + j] != self.delimiter[j] {
                assert(self.text@.subrange(i as int, i + m)[j as int] != self.delimiter@[j as int]);
                return false;
            }
            j = j + 1;
        }
        assert(self.text@.subrange(i as int, i + m) =~= self.delimiter@);
        true
    }

    /// The first occurrence of the delimiter at or after `from`.
    fn find_delimiter(&self, from: usize) -> (r: Option<usize>)
        requires
            self.wf(),
            from <= self.document().len(),
        ensures
            find_from(self.document(), self.delim(), from as int) == match r {
                Some(d) => Some(d as int),
                None => None::<int>,
            },
            r is Some ==> r->0 + self.delim().len() <= self.document().len(),
    {
        let ghost doc = self.document();
        let ghost delim = self.delim();
        let n = self.text.len();
        let m = self.delimiter.len();
        if m > n {
            return None;
        }
        let last = n - m;
        if from > last {
            return None;
        }
        let mut i: usize = from;
        loop
            invariant
                n == doc.len(),
                m == delim.len(),
                last == n - m,
                from <= i <= last,
                self.wf(),
                doc == self.document(),
                delim == self.delim(),
                find_from(doc, delim, from as int) == find_from(doc, delim, i as int),
            decreases last - i,
        {
            if self.delimiter_at(i) {
                return Some(i);
            }
            if i == last {
                assert(find_from(doc, delim, i + 1) is None);
                return None;
            }
            i = i + 1;
        }
    }

    /// The first newline at or after `from`.
    fn find_newline(&self, from: usize) -> (r: Option<usize>)
        requires
            self.wf(),
            from <= self.document().len(),
        ensures
            newline_from(self.document(), from as int) == match r {
                Some(n) => Some(n as int),
                None => None::<int>,
            },
    {
        let ghost doc = self.document();
        let n = self.text.len();
        let mut i: usize = from;
        while i < n
            invariant
                n == doc.len(),
                from <= i <= n,
                doc == self.text@,
                newline_from(doc, from as int) == newline_from(doc, i as int),
            decreases n - i,
        {
            if self.text[i] == '\n' {
                return Some(i);
            }
            i = i + 1;
        }
        None
    }

    /// The document's characters from `a` to `b`.
    fn slice(&self, a: usize, b: usize) -> (r: String)
        requires
            self.wf(),
            a <= b <= self.document().len(),
        ensures
            r@ == self.document().subrange(a as int, b as int),
    {
        self.content.as_str().substring_char(a, b).to_owned()
    }

    /// The segment at the cursor and the cursor after it.
    fn next_step(&self) -> (r: (Option<(String, Option<String>)>, usize))
        requires
            self.wf(),
        ensures
            segment_view(r.0) == self.upcoming(),
            !self.exhausted() ==> r.1 == next_cursor(self.document(), self.delim(), self.cursor()),
            self.exhausted() ==> r.1 == self.position,
            r.1 <= self.document().len(),
    {
        let ghost doc = self.document();
        let ghost delim = self.delim();
        let pos = self.position;
        let n = self.text.len();
        if pos >= n {
            return (None, pos);
        }
        proof {
            lemma_find_from(doc, delim, pos as int);
        }
        match self.find_delimiter(pos) {
            Some(d) => {
                let text = self.slice(pos, d);
                let a = d + self.delimiter.len();
                proof {
                    lemma_newline_from(doc, a as int);
                }
                let (end, next, closing) = match self.find_newline(a) {
                    Some(nl) => (nl, nl + 1, self.delimiter.len() > 0 && nl > a && nl + 1 == n),
                    None => (n, n, false),
                };
                if closing {
                    return (Some((text, None)), a);
                }
                let note = if end > a {
                    Some(trim_text(self.content.as_str().substring_char(a, end)))
                } else {
                    None
                };
                (Some((text, note)), next)
            },
            None => (Some((self.slice(pos, n), None)), n),
        }
    }

    /// Hands out the segment at the cursor and moves the cursor past it:
    /// past the delimiter, the annotation line and its newline, or only past
    /// the delimiter when a closing line follows it. `None`, with nothing
    /// changed, once the document is exhausted.
    pub fn get_next_segment(&mut self) -> (r: Option<(String, Option<String>)>)
        requires
            old(self).wf(),
        ensures
            final(self).wf(),
            segment_view(r) == old(self).upcoming(),
            r is None <==> old(self).exhausted(),
            final(self).document() == old(self).document(),
            final(self).delim() == old(self).delim(),
            old(self).exhausted() ==> final(self).cursor() == old(self).cursor(),
            !old(self).exhausted() ==> final(self).cursor() == next_cursor(
                old(self).document(),
                old(self).delim(),
                old(self).cursor(),
            ),
            old(self).cursor() <= final(self).cursor(),
            !old(self).exhausted() ==> piece(old(self).document(), old(self).delim(), old(self).cursor())
                == old(self).document().subrange(old(self).cursor(), final(self).cursor()),
    {
        let (r, next) = self.next_step();
        proof {
            if !self.exhausted() {
                lemma_piece(self.document(), self.delim(), self.cursor());
            }
        }
        self.position = next;
        r
    }

    /// The segment that `get_next_segment` would hand out now, without moving the cursor.
    pub fn preview_next_segment(&self) -> (r: Option<(String, Option<String>)>)
        requires
            self.wf(),
        ensures
            segment_view(r) == self.upcoming(),
            r is None <==> self.exhausted(),
    {
        self.next_step().0
    }
}

/// A segment as returned, seen as sequences of characters.
pub open spec fn segment_view(r: Option<(String, Option<String>)>) -> Option<
    (Seq<char>, Option<Seq<char>>),
> {
    match r {
        Some((t, n)) => Some(
            (
                t@,
                match n {
                    Some(s) => Some(s@),
                    None => None,
                },
            ),
        ),
        None => None,
    }
}

} // verus!
