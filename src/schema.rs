use vstd::prelude::*;

verus! {

/// The characters with the Unicode `White_Space` property, which `char::is_whitespace`
/// and `str::trim` go by.
pub open spec fn is_ws(c: char) -> bool {
    let u = c as u32;
    (0x9 <= u <= 0xD) || u == 0x20 || u == 0x85 || u == 0xA0 || u == 0x1680 || (0x2000 <= u
        <= 0x200A) || u == 0x2028 || u == 0x2029 || u == 0x202F || u == 0x205F || u == 0x3000
}

/// Whether the character is white space.
pub fn is_white_space(c: char) -> (r: bool)
    ensures
        r == is_ws(c),
{
    let u = c as u32;
    (0x9 <= u && u <= 0xD) || u == 0x20 || u == 0x85 || u == 0xA0 || u == 0x1680 || (0x2000 <= u
        && u <= 0x200A) || u == 0x2028 || u == 0x2029 || u == 0x202F || u == 0x205F || u == 0x3000
}

/// The text without its leading white space.
pub open spec fn trim_start(s: Seq<char>) -> Seq<char>
    decreases s.len(),
{
    if s.len() > 0 && is_ws(s[0]) {
        trim_start(s.drop_first())
    } else {
        s
    }
}

/// The text without its trailing white space.
pub open spec fn trim_end(s: Seq<char>) -> Seq<char>
    decreases s.len(),
{
    if s.len() > 0 && is_ws(s.last()) {
        trim_end(s.drop_last())
    } else {
        s
    }
}

/// The text without leading and trailing white space.
pub open spec fn trim(s: Seq<char>) -> Seq<char> {
    trim_end(trim_start(s))
}

/// The pieces of the text between occurrences of `d`: one more piece than there are
/// occurrences, empty pieces included.
pub open spec fn split_on(s: Seq<char>, d: char) -> Seq<Seq<char>>
    decreases s.len(),
{
    if s.len() == 0 {
        seq![Seq::empty()]
    } else {
        let p = split_on(s.drop_last(), d);
        if s.last() == d {
            p.push(Seq::empty())
        } else {
            p.update(p.len() - 1, p.last().push(s.last()))
        }
    }
}

/// The text begins with a line-comment marker.
pub open spec fn starts_with_dashes(t: Seq<char>) -> bool {
    t.len() >= 2 && t[0] == '-' && t[1] == '-'
}

/// A line that holds something besides white space and is not a comment.
pub open spec fn is_code_line(l: Seq<char>) -> bool {
    trim(l).len() > 0 && !starts_with_dashes(trim(l))
}

/// A trimmed statement is run when it has a line that is neither blank nor a comment.
pub open spec fn runnable(t: Seq<char>) -> bool {
    exists|i: int| 0 <= i < split_on(t, '\n').len() && is_code_line(#[trigger] split_on(t, '\n')[i])
}

/// The trimmed pieces that are run, in order.
pub open spec fn keep_runnable(pieces: Seq<Seq<char>>) -> Seq<Seq<char>>
    decreases pieces.len(),
{
    if pieces.len() == 0 {
        Seq::empty()
    } else {
        let prev = keep_runnable(pieces.drop_last());
        let t = trim(pieces.last());
        if runnable(t) {
            prev.push(t)
        } else {
            prev
        }
    }
}

/// The statements of a schema script, in order: the script split at each `;`,
/// each piece trimmed, and the pieces that are not run left out.
pub open spec fn statements_of(sql: Seq<char>) -> Seq<Seq<char>> {
    keep_runnable(split_on(sql, ';'))
}

/// One more character of the range `[a, j]` extends the split of `[a, j)`.
proof fn lemma_split_step(cs: Seq<char>, a: int, ls: int, j: int, d: char, done: Seq<Seq<char>>)
    requires
        0 <= a <= ls <= j < cs.len(),
        split_on(cs.subrange(a, j), d) == done.push(cs.subrange(ls, j)),
    ensures
        cs[j] == d ==> split_on(cs.subrange(a, j + 1), d) == done.push(cs.subrange(ls, j)).push(
            cs.subrange(j + 1, j + 1),
        ),
        cs[j] != d ==> split_on(cs.subrange(a, j + 1), d) == done.push(cs.subrange(ls, j + 1)),
{
    let s = cs.subrange(a, j + 1);
    assert(s.drop_last() =~= cs.subrange(a, j));
    assert(s.last() == cs[j]);
    assert(cs.subrange(j + 1, j + 1) =~= Seq::<char>::empty());
    if cs[j] != d {
        assert(cs.subrange(ls, j).push(cs[j]) =~= cs.subrange(ls, j + 1));
        assert(done.push(cs.subrange(ls, j)).update(done.len() as int, cs.subrange(ls, j + 1))
            =~= done.push(cs.subrange(ls, j + 1)));
    }
}

/// Collects the characters of the text.
fn chars_of(s: &str) -> (r: Vec<char>)
    ensures
        r@ == s@,
{
    let n = s.unicode_len();
    let mut r: Vec<char> = Vec::new();
    let mut i: usize = 0;
    while i < n
        invariant
            n == s@.len(),
            i <= n,
            r@ == s@.subrange(0, i as int),
        decreases n - i,
    {
        r.push(s.get_char(i));
        i = i + 1;
        assert(r@ =~= s@.subrange(0, i as int));
    }
    assert(r@ =~= s@);
    r
}

/// The bounds of the trimmed part of `cs[a..b]`.
fn trim_range(cs: &Vec<char>, a: usize, b: usize) -> (r: (usize, usize))
    requires
        a <= b <= cs@.len(),
    ensures
        a <= r.0 <= r.1 <= b,
        cs@.subrange(r.0 as int, r.1 as int) == trim(cs@.subrange(a as int, b as int)),
{
    let mut x: usize = a;
    while x < b && is_white_space(cs[x])
        invariant
            a <= x <= b <= cs@.len(),
            trim_start(cs@.subrange(a as int, b as int)) == trim_start(cs@.subrange(x as int, b as int)),
        decreases b - x,
    {
        assert(cs@.subrange(x as int, b as int).drop_first() =~= cs@.subrange(x + 1, b as int));
        x = x + 1;
    }
    let mut y: usize = b;
    while y > x && is_white_space(cs[y - 1])
        invariant
            a <= x <= y <= b <= cs@.len(),
            trim_start(cs@.subrange(a as int, b as int)) == cs@.subrange(x as int, b as int),
            trim_end(cs@.subrange(x as int, b as int)) == trim_end(cs@.subrange(x as int, y as int)),
        decreases y - x,
    {
        assert(cs@.subrange(x as int, y as int).drop_last() =~= cs@.subrange(x as int, y - 1));
        y = y - 1;
    }
    (x, y)
}

/// Whether `cs[a..b]` begins with a line-comment marker.
fn dashes_at(cs: &Vec<char>, a: usize, b: usize) -> (r: bool)
    requires
        a <= b <= cs@.len(),
    ensures
        r == starts_with_dashes(cs@.subrange(a as int, b as int)),
{
    b - a >= 2 && cs[a] == '-' && cs[a + 1] == '-'
}

/// Whether `cs[a..b]`, already trimmed, is a statement that is run.
fn runnable_range(cs: &Vec<char>, a: usize, b: usize) -> (r: bool)
    requires
        a <= b <= cs@.len(),
    ensures
        r == runnable(cs@.subrange(a as int, b as int)),
{
    let ghost t = cs@.subrange(a as int, b as int);
    let mut found = false;
    let mut ls: usize = a;
    let mut j: usize = a;
    let ghost mut done: Seq<Seq<char>> = Seq::empty();
    proof {
        assert(cs@.subrange(a as int, a as int) =~= Seq::<char>::empty());
        assert(split_on(cs@.subrange(a as int, a as int), '\n') =~= done.push(cs@.subrange(a as int, a as int)));
    }
    while j < b
        invariant
            a <= ls <= j <= b <= cs@.len(),
            split_on(cs@.subrange(a as int, j as int), '\n') == done.push(cs@.subrange(ls as int, j as int)),
            found == exists|i: int| 0 <= i < done.len() && is_code_line(#[trigger] done[i]),
        decreases b - j,
    {
        proof {
            lemma_split_step(cs@, a as int, ls as int, j as int, '\n', done);
        }
        if cs[j] == '\n' {
            let (x, y) = trim_range(cs, ls, j);
            let code = y > x && !dashes_at(cs, x, y);
            let ghost line = cs@.subrange(ls as int, j as int);
            proof {
                let nd = done.push(line);
                if found {
                    let i = choose|i: int| 0 <= i < done.len() && is_code_line(#[trigger] done[i]);
                    assert(nd[i] == done[i]);
                }
                if code {
                    assert(nd[done.len() as int] == line);
                }
                if exists|i: int| 0 <= i < nd.len() && is_code_line(#[trigger] nd[i]) {
                    let i = choose|i: int| 0 <= i < nd.len() && is_code_line(#[trigger] nd[i]);
                    if i < done.len() {
                        assert(nd[i] == done[i]);
                    }
                }
                done = nd;
            }
            found = found || code;
            ls = j + 1;
        }
        j = j + 1;
    }
    let (x, y) = trim_range(cs, ls, b);
    let code = y > x && !dashes_at(cs, x, y);
    proof {
        assert(cs@.subrange(a as int, b as int) == t);
        let all = done.push(cs@.subrange(ls as int, b as int));
        assert(split_on(t, '\n') == all);
        if found {
            let i = choose|i: int| 0 <= i < done.len() && is_code_line(#[trigger] done[i]);
            assert(all[i] == done[i]);
        }
        if code {
            assert(all[done.len() as int] == cs@.subrange(ls as int, b as int));
        }
        if exists|i: int| 0 <= i < all.len() && is_code_line(#[trigger] all[i]) {
            let i = choose|i: int| 0 <= i < all.len() && is_code_line(#[trigger] all[i]);
            if i < done.len() {
                assert(all[i] == done[i]);
            }
        }
    }
    found || code
}

/// Splits a schema script into the statements to run, in order: pieces between
/// `;`, trimmed, leaving out those that hold nothing but blank and comment lines. Running the schema runs these one by one and stops
/// at the first that fails.
pub fn schema_statements(sql: &str) -> (r: Vec<String>)
    ensures
        r@.map_values(|s: String| s@) == statements_of(sql@),
{
    let cs = chars_of(sql);
    let n = cs.len();
    let mut out: Vec<String> = Vec::new();
    let mut ps: usize = 0;
    let mut j: usize = 0;
    let ghost mut done: Seq<Seq<char>> = Seq::empty();
    proof {
        assert(cs@.subrange(0, 0) =~= Seq::<char>::empty());
        assert(split_on(cs@.subrange(0, 0), ';') =~= done.push(cs@.subrange(0, 0)));
    }
    while j < n
        invariant
            n == cs@.len(),
            cs@ == sql@,
            ps <= j <= n,
            split_on(cs@.subrange(0, j as int), ';') == done.push(cs@.subrange(ps as int, j as int)),
            out@.map_values(|s: String| s@) == keep_runnable(done),
        decreases n - j,
    {
        proof {
            lemma_split_step(cs@, 0, ps as int, j as int, ';', done);
        }
        if cs[j] == ';' {
            let (x, y) = trim_range(&cs, ps, j);
            let ghost piece = cs@.subrange(ps as int, j as int);
            let ghost nd = done.push(piece);
            proof {
                assert(nd.drop_last() =~= done);
            }
            if runnable_range(&cs, x, y) {
                let st = sql.substring_char(x, y).to_owned();
                out.push(st);
                proof {
                    assert(out@.map_values(|s: String| s@) =~= keep_runnable(done).push(trim(piece)));
                }
            }
            proof {
                done = nd;
            }
            ps = j + 1;
        }
        j = j + 1;
    }
    let (x, y) = trim_range(&cs, ps, n);
    let ghost piece = cs@.subrange(ps as int, n as int);
    let ghost all = done.push(piece);
    proof {
        assert(all.drop_last() =~= done);
        assert(cs@.subrange(0, n as int) =~= sql@);
    }
    if runnable_range(&cs, x, y) {
        let st = sql.substring_char(x, y).to_owned();
        out.push(st);
        proof {
            assert(out@.map_values(|s: String| s@) =~= keep_runnable(done).push(trim(piece)));
        }
    }
    out
}

} // verus!
