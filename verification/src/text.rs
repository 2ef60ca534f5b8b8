use vstd::prelude::*;

verus! {

/// Number of bytes in the UTF-8 encoding of `s`, the length that `str::len` reports.
pub open spec fn byte_len(s: Seq<char>) -> nat {
    vstd::utf8::encode_utf8(s).len()
}

/// The length in bytes that `str::len` reports for a text.
pub open spec fn str_len(s: Seq<char>) -> usize {
    byte_len(s) as usize
}

/// A run of `n` spaces.
pub open spec fn spaces(n: nat) -> Seq<char> {
    Seq::new(n, |i: int| ' ')
}

/// The parts joined, with `sep` between neighbours.
pub open spec fn join(parts: Seq<Seq<char>>, sep: Seq<char>) -> Seq<char>
    decreases parts.len(),
{
    if parts.len() == 0 {
        Seq::empty()
    } else if parts.len() == 1 {
        parts[0]
    } else {
        join(parts.drop_last(), sep) + sep + parts.last()
    }
}

/// The views of a vector of strings.
pub open spec fn views(v: Seq<String>) -> Seq<Seq<char>> {
    Seq::new(v.len(), |i: int| v[i]@)
}

/// `s` cut at every line feed; there is always at least one piece.
pub open spec fn pieces(s: Seq<char>) -> Seq<Seq<char>>
    decreases s.len(),
{
    if s.len() == 0 {
        seq![Seq::empty()]
    } else {
        let p = pieces(s.drop_last());
        if s.last() == '\n' {
            p.push(Seq::empty())
        } else {
            p.update(p.len() - 1, p.last().push(s.last()))
        }
    }
}

/// A piece without one trailing carriage return.
pub open spec fn strip_cr(piece: Seq<char>) -> Seq<char> {
    if piece.len() > 0 && piece.last() == '\r' {
        piece.drop_last()
    } else {
        piece
    }
}

/// The lines of `s` as `str::lines` yields them: the text is cut at each `\n`,
/// a `\r` right before a `\n` is dropped, and an empty last piece (after a
/// final line feed, or of an empty text) yields no line.
pub open spec fn lines_of(s: Seq<char>) -> Seq<Seq<char>> {
    let p = pieces(s);
    let kept: nat = if p.last().len() == 0 { (p.len() - 1) as nat } else { p.len() };
    Seq::new(kept, |j: int| if j < p.len() - 1 { strip_cr(p[j]) } else { p[j] })
}

/// The line `y` of `ls`, or the empty text past its end.
pub open spec fn line_or_empty(ls: Seq<Seq<char>>, y: int) -> Seq<char> {
    if 0 <= y < ls.len() {
        ls[y]
    } else {
        Seq::empty()
    }
}

proof fn lemma_pieces_len(s: Seq<char>)
    ensures
        pieces(s).len() >= 1,
    decreases s.len(),
{
    if s.len() > 0 {
        lemma_pieces_len(s.drop_last());
    }
}

/// Every character takes at least one byte in UTF-8.
pub proof fn lemma_byte_len_at_least_chars(s: Seq<char>)
    ensures
        byte_len(s) >= s.len(),
    decreases s.len(),
{
    reveal_with_fuel(vstd::utf8::encode_utf8, 2);
    if s.len() > 0 {
        lemma_byte_len_at_least_chars(s.drop_first());
    }
}

/// The decimal digit character of a value below ten.
pub open spec fn digit_char(d: int) -> char {
    ((d + 48) as u8) as char
}

/// The decimal digits of a natural number, most significant first.
pub open spec fn digits(n: nat) -> Seq<char>
    decreases n,
{
    if n < 10 {
        seq![digit_char(n as int)]
    } else {
        digits(n / 10).push(digit_char((n % 10) as int))
    }
}

/// An integer written in decimal, as `{}` writes it.
pub open spec fn decimal(v: int) -> Seq<char> {
    if v < 0 {
        seq!['-'] + digits((-v) as nat)
    } else {
        digits(v as nat)
    }
}

fn digits_text(n: u64) -> (r: String)
    ensures
        r@ == digits(n as nat),
    decreases n,
{
    let d = ((n % 10) as u8 + 48) as char;
    if n < 10 {
        let mut r = String::new();
        push_char(&mut r, d);
        assert(r@ =~= digits(n as nat));
        r
    } else {
        let mut r = digits_text(n / 10);
        push_char(&mut r, d);
        r
    }
}

/// An integer written in decimal, as `{}` writes it.
pub fn decimal_text(v: i32) -> (r: String)
    ensures
        r@ == decimal(v as int),
{
    if v < 0 {
        let magnitude: u64 = (0i64 - (v as i64)) as u64;
        let tail = digits_text(magnitude);
        let mut r = String::new();
        push_char(&mut r, '-');
        r.append(tail.as_str());
        assert(r@ =~= decimal(v as int));
        r
    } else {
        digits_text(v as u64)
    }
}

/// Appends one character.
#[verifier::external_body]
pub(crate) fn push_char(s: &mut String, c: char)
    ensures
        final(s)@ == old(s)@.push(c),
{
    s.push(c);
}

/// A new string holding the characters of `chars` in order.
pub fn string_of_chars(chars: &Vec<char>) -> (r: String)
    ensures
        r@ == chars@,
{
    let mut r = String::new();
    let mut i: usize = 0;
    while i < chars.len()
        invariant
            i <= chars.len(),
            r@ == chars@.take(i as int),
        decreases chars.len() - i,
    {
        push_char(&mut r, chars[i]);
        assert(chars@.take(i as int + 1) =~= chars@.take(i as int).push(chars@[i as int]));
        i = i + 1;
    }
    assert(chars@.take(chars.len() as int) =~= chars@);
    r
}

/// Whether two texts are the same sequence of characters.
pub fn same_text(a: &str, b: &str) -> (r: bool)
    ensures
        r == (a@ == b@),
{
    let n = a.unicode_len();
    if n != b.unicode_len() {
        return false;
    }
    let mut i: usize = 0;
    while i < n
        invariant
            n == a@.len(),
            n == b@.len(),
            i <= n,
            forall|j: int| 0 <= j < i ==> a@[j] == b@[j],
        decreases n - i,
    {
        if a.get_char(i) != b.get_char(i) {
            return false;
        }
        i = i + 1;
    }
    assert(a@ =~= b@);
    true
}

/// Whether `c` occurs in `s`.
pub fn has_char(s: &str, c: char) -> (r: bool)
    ensures
        r == s@.contains(c),
{
    let n = s.unicode_len();
    let mut i: usize = 0;
    while i < n
        invariant
            n == s@.len(),
            i <= n,
            forall|j: int| 0 <= j < i ==> s@[j] != c,
        decreases n - i,
    {
        if s.get_char(i) == c {
            assert(s@[i as int] == c);
            return true;
        }
        i = i + 1;
    }
    false
}

/// A string of `n` spaces.
pub fn space_run(n: usize) -> (r: String)
    ensures
        r@ == spaces(n as nat),
{
    let mut r = String::new();
    let mut i: usize = 0;
    while i < n
        invariant
            i <= n,
            r@ == spaces(i as nat),
        decreases n - i,
    {
        push_char(&mut r, ' ');
        assert(spaces(i as nat).push(' ') =~= spaces((i + 1) as nat));
        i = i + 1;
    }
    r
}

/// Copies a string slice into a new string.
pub fn owned(s: &str) -> (r: String)
    ensures
        r@ == s@,
{
    String::from_str(s)
}

/// The concatenation of the given texts.
pub fn concat2(a: &str, b: &str) -> (r: String)
    ensures
        r@ == a@ + b@,
{
    let mut r = String::from_str(a);
    r.append(b);
    r
}

/// The concatenation of the given texts.
pub fn concat3(a: &str, b: &str, c: &str) -> (r: String)
    ensures
        r@ == a@ + b@ + c@,
{
    let mut r = String::from_str(a);
    r.append(b);
    r.append(c);
    r
}

/// The concatenation of the given texts.
pub fn concat4(a: &str, b: &str, c: &str, d: &str) -> (r: String)
    ensures
        r@ == a@ + b@ + c@ + d@,
{
    let mut r = String::from_str(a);
    r.append(b);
    r.append(c);
    r.append(d);
    r
}

/// Joins the parts with `sep` between neighbours.
pub fn join_strings(parts: &Vec<String>, sep: &str) -> (r: String)
    ensures
        r@ == join(views(parts@), sep@),
{
    let ghost all = views(parts@);
    let mut r = String::new();
    let mut i: usize = 0;
    while i < parts.len()
        invariant
            i <= parts.len(),
            all == views(parts@),
            r@ == join(all.take(i as int), sep@),
        decreases parts.len() - i,
    {
        let ghost before = all.take(i as int);
        if i > 0 {
            r.append(sep);
        }
        r.append(parts[i].as_str());
        assert(all.take(i as int + 1).drop_last() =~= before);
        assert(all.take(i as int + 1).last() == parts@[i as int]@);
        if i == 0 {
            assert(r@ =~= join(all.take(1), sep@));
        }
        i = i + 1;
    }
    assert(all.take(parts.len() as int) =~= all);
    r
}

/// The lines of `s`, as `str::lines` yields them.
pub fn text_lines(s: &str) -> (r: Vec<String>)
    ensures
        views(r@) == lines_of(s@),
{
    let n = s.unicode_len();
    let mut done: Vec<String> = Vec::new();
    let mut cur = String::new();
    let mut i: usize = 0;
    proof {
        assert(s@.take(0) =~= Seq::<char>::empty());
    }
    while i < n
        invariant
            n == s@.len(),
            i <= n,
            pieces(s@.take(i as int)) == views(done@).push(cur@),
        decreases n - i,
    {
        let c = s.get_char(i);
        let ghost pre = s@.take(i as int);
        assert(s@.take(i as int + 1).drop_last() =~= pre);
        assert(s@.take(i as int + 1).last() == c);
        let ghost old_views = views(done@);
        if c == '\n' {
            let ghost finished_view = cur@;
            let finished = cur;
            done.push(finished);
            cur = String::new();
            assert(views(done@) =~= old_views.push(finished_view));
            assert(pieces(s@.take(i as int + 1)) =~= views(done@).push(cur@));
        } else {
            push_char(&mut cur, c);
            assert(views(done@) =~= old_views);
            assert(pieces(s@.take(i as int + 1)) =~= views(done@).push(cur@));
        }
        i = i + 1;
    }
    assert(s@.take(n as int) =~= s@);
    let ghost p = pieces(s@);
    let mut r: Vec<String> = Vec::new();
    let total = done.len();
    let mut j: usize = 0;
    while j < total
        invariant
            total == done.len(),
            p == views(done@).push(cur@),
            j <= total,
            views(r@) =~= Seq::new(j as nat, |k: int| strip_cr(p[k])),
        decreases total - j,
    {
        let ghost before = views(r@);
        let line = strip_carriage_return(&done[j]);
        assert(p[j as int] == done@[j as int]@);
        r.push(line);
        assert(views(r@) =~= before.push(strip_cr(p[j as int])));
        j = j + 1;
    }
    proof {
        lemma_pieces_len(s@);
    }
    if cur.unicode_len() > 0 {
        let ghost before = views(r@);
        let ghost last = cur@;
        r.push(cur);
        assert(views(r@) =~= before.push(last));
        assert(views(r@) =~= lines_of(s@));
    } else {
        assert(views(r@) =~= lines_of(s@));
    }
    r
}

/// The text without one trailing carriage return.
pub fn strip_carriage_return(s: &String) -> (r: String)
    ensures
        r@ == strip_cr(s@),
{
    let n = s.as_str().unicode_len();
    if n > 0 && s.as_str().get_char(n - 1) == '\r' {
        let t = s.as_str().substring_char(0, n - 1);
        assert(s@.subrange(0, n - 1) =~= s@.drop_last());
        String::from_str(t)
    } else {
        s.clone()
    }
}

/// Cutting text that has no line feed after a prefix only lengthens the
/// prefix's last piece.
proof fn lemma_pieces_extend(x: Seq<char>, y: Seq<char>)
    requires
        !y.contains('\n'),
    ensures
        pieces(x + y) == pieces(x).update(pieces(x).len() - 1, pieces(x).last() + y),
    decreases y.len(),
{
    lemma_pieces_len(x);
    if y.len() == 0 {
        assert(x + y =~= x);
        assert(pieces(x).last() + y =~= pieces(x).last());
        assert(pieces(x).update(pieces(x).len() - 1, pieces(x).last()) =~= pieces(x));
    } else {
        let y0 = y.drop_last();
        assert(!y0.contains('\n')) by {
            if y0.contains('\n') {
                let k = choose|k: int| 0 <= k < y0.len() && y0[k] == '\n';
                assert(y[k] == '\n');
            }
        }
        assert(y.last() != '\n') by {
            assert(y[y.len() - 1] == y.last());
        }
        lemma_pieces_extend(x, y0);
        assert((x + y).drop_last() =~= x + y0);
        assert((x + y).last() == y.last());
        lemma_pieces_len(x + y0);
        assert(pieces(x).last() + y0 + seq![y.last()] =~= pieces(x).last() + y);
        let p0 = pieces(x);
        let p1 = pieces(x + y0);
        assert(p1 == p0.update(p0.len() - 1, p0.last() + y0));
        assert(p1.len() == p0.len());
        assert(p1.last() == p0.last() + y0);
        assert((p0.last() + y0).push(y.last()) =~= p0.last() + y);
        assert(pieces(x + y) == p1.update(p1.len() - 1, p1.last().push(y.last())));
        assert(pieces(x + y) =~= pieces(x).update(pieces(x).len() - 1, pieces(x).last() + y));
    }
}

/// Joining rows that hold no line feed with line feeds, then cutting the
/// result at line feeds, gives the rows back.
pub proof fn lemma_pieces_of_join(rows: Seq<Seq<char>>)
    requires
        rows.len() >= 1,
        forall|i: int| 0 <= i < rows.len() ==> !(#[trigger] rows[i]).contains('\n'),
    ensures
        pieces(join(rows, seq!['\n'])) == rows,
    decreases rows.len(),
{
    if rows.len() == 1 {
        lemma_pieces_extend(Seq::empty(), rows[0]);
        assert(Seq::<char>::empty() + rows[0] =~= rows[0]);
        assert(pieces(Seq::<char>::empty()) =~= seq![Seq::<char>::empty()]);
        assert(Seq::<char>::empty() + rows[0] =~= rows[0]);
        assert(seq![Seq::<char>::empty()].update(0, Seq::<char>::empty() + rows[0]) =~= rows);
    } else {
        let front = rows.drop_last();
        assert forall|i: int| 0 <= i < front.len() implies !(#[trigger] front[i]).contains('\n') by {
            assert(front[i] == rows[i]);
        }
        lemma_pieces_of_join(front);
        let a = join(front, seq!['\n']);
        let with_feed = a + seq!['\n'];
        assert(with_feed.drop_last() =~= a);
        assert(with_feed.last() == '\n');
        assert(pieces(with_feed) == front.push(Seq::empty()));
        assert(!rows.last().contains('\n')) by {
            assert(rows[rows.len() - 1] == rows.last());
        }
        lemma_pieces_extend(with_feed, rows.last());
        assert(join(rows, seq!['\n']) == with_feed + rows.last());
        assert(Seq::<char>::empty() + rows.last() =~= rows.last());
        assert(front.push(Seq::empty()).update(front.len() as int, Seq::<char>::empty() + rows.last()) =~= rows);
    }
}

/// The rows of a picture come back from its text: joining rows that hold
/// neither line feeds nor carriage returns, the last of them not empty, and
/// taking the lines of the result yields the rows.
pub proof fn lemma_lines_of_join(rows: Seq<Seq<char>>)
    requires
        forall|i: int|
            0 <= i < rows.len() ==> !(#[trigger] rows[i]).contains('\n') && !rows[i].contains('\r'),
        rows.len() > 0 ==> rows.last().len() > 0,
    ensures
        lines_of(join(rows, seq!['\n'])) == rows,
{
    if rows.len() == 0 {
        assert(pieces(Seq::<char>::empty()) =~= seq![Seq::<char>::empty()]);
        assert(lines_of(join(rows, seq!['\n'])) =~= rows);
    } else {
        lemma_pieces_of_join(rows);
        let p = pieces(join(rows, seq!['\n']));
        assert forall|j: int| 0 <= j < rows.len() implies strip_cr(rows[j]) == rows[j] by {
            if rows[j].len() > 0 && rows[j].last() == '\r' {
                assert(rows[j][rows[j].len() - 1] == '\r');
                assert(rows[j].contains('\r'));
            }
        }
        assert(lines_of(join(rows, seq!['\n'])) =~= rows);
    }
}

/// Decimal writing: a single digit for 0 to 9, a number from 10 on is the
/// decimal of its tenth followed by its last digit, and a negative number is
/// a minus sign before the decimal of its magnitude.
pub proof fn lemma_decimal_digits(q: int, d: int)
    requires
        0 <= d < 10,
    ensures
        decimal(d) == seq![((d + 48) as u8) as char],
        q > 0 ==> decimal(10 * q + d) == decimal(q) + seq![((d + 48) as u8) as char],
        q > 0 ==> decimal(-q) == seq!['-'] + decimal(q),
        decimal(0) == seq!['0'],
{
    if q > 0 {
        let n = (10 * q + d) as nat;
        assert(n / 10 == q && n % 10 == d);
    }
}

} // verus!
