use vstd::prelude::*;

verus! {

pub const SPACE: u8 = 0x20;

pub const NEWLINE: u8 = 0x0a;

/// The bytes of `refs/heads/`.
pub open spec fn heads_prefix() -> Seq<u8> {
    seq![0x72u8, 0x65, 0x66, 0x73, 0x2f, 0x68, 0x65, 0x61, 0x64, 0x73, 0x2f]
}

/// The bytes of `refs/remotes/`.
pub open spec fn remotes_prefix() -> Seq<u8> {
    seq![0x72u8, 0x65, 0x66, 0x73, 0x2f, 0x72, 0x65, 0x6d, 0x6f, 0x74, 0x65, 0x73, 0x2f]
}

/// The text between newlines, scanning from the left; always at least one, possibly empty.
pub open spec fn segments(s: Seq<u8>) -> Seq<Seq<u8>>
    decreases s.len(),
{
    if s.len() == 0 {
        seq![Seq::<u8>::empty()]
    } else {
        let p = segments(s.drop_last());
        if s.last() == NEWLINE {
            p.push(Seq::<u8>::empty())
        } else {
            p.update(p.len() - 1, p.last().push(s.last()))
        }
    }
}

/// The lines of `s`: the segments between newlines, without an empty one after the last newline.
pub open spec fn lines(s: Seq<u8>) -> Seq<Seq<u8>> {
    let g = segments(s);
    if g.last().len() == 0 {
        g.drop_last()
    } else {
        g
    }
}

/// Index of the first space of `s`, or its length when it has none.
pub open spec fn space_at(s: Seq<u8>) -> int
    decreases s.len(),
{
    if s.len() == 0 {
        0
    } else if s[0] == SPACE {
        0
    } else {
        1 + space_at(s.subrange(1, s.len() as int))
    }
}

pub open spec fn has_prefix(s: Seq<u8>, p: Seq<u8>) -> bool {
    p.len() <= s.len() && s.subrange(0, p.len() as int) == p
}

/// The three space-separated columns of a line; the third one takes the rest of the line.
pub open spec fn columns(line: Seq<u8>) -> Option<(Seq<u8>, Seq<u8>, Seq<u8>)> {
    let p1 = space_at(line);
    if p1 >= line.len() {
        None
    } else {
        let rest = line.subrange(p1 + 1, line.len() as int);
        let p2 = space_at(rest);
        if p2 >= rest.len() {
            None
        } else {
            Some(
                (
                    line.subrange(0, p1),
                    rest.subrange(0, p2),
                    rest.subrange(p2 + 1, rest.len() as int),
                ),
            )
        }
    }
}

/// A line `<refname> <upstream> <subject>` read as branch name, remote-tracking branch
/// (empty where the upstream is not under `refs/remotes/`) and subject; `None` where a
/// column is missing or the ref is not a local branch.
pub open spec fn ref_line_spec(line: Seq<u8>) -> Option<(Seq<u8>, Seq<u8>, Seq<u8>)> {
    match columns(line) {
        None => None,
        Some((local, remote, subject)) => if has_prefix(local, heads_prefix()) {
            Some(
                (
                    local.subrange(heads_prefix().len() as int, local.len() as int),
                    if has_prefix(remote, remotes_prefix()) {
                        remote.subrange(remotes_prefix().len() as int, remote.len() as int)
                    } else {
                        Seq::<u8>::empty()
                    },
                    subject,
                ),
            )
        } else {
            None
        },
    }
}

/// One local branch of the branch list.
#[derive(Clone, Debug, PartialEq, Eq)]
pub struct RefLine {
    pub local: Vec<u8>,
    pub remote: Vec<u8>,
    pub subject: Vec<u8>,
}

impl View for RefLine {
    type V = (Seq<u8>, Seq<u8>, Seq<u8>);

    open spec fn view(&self) -> (Seq<u8>, Seq<u8>, Seq<u8>) {
        (self.local@, self.remote@, self.subject@)
    }
}

proof fn lemma_space_at(s: Seq<u8>, i: int)
    requires
        0 <= i <= s.len(),
        forall|j: int| 0 <= j < i ==> s[j] != SPACE,
        i == s.len() || s[i] == SPACE,
    ensures
        space_at(s) == i,
    decreases s.len(),
{
    if s.len() > 0 && s[0] != SPACE {
        let t = s.subrange(1, s.len() as int);
        assert forall|j: int| 0 <= j < i - 1 implies t[j] != SPACE by {
            assert(t[j] == s[j + 1]);
        }
        lemma_space_at(t, i - 1);
    }
}

fn find_space(s: &[u8], from: usize) -> (r: usize)
    requires
        from <= s@.len(),
    ensures
        from + space_at(s@.subrange(from as int, s@.len() as int)) == r,
        from <= r <= s@.len(),
{
    let mut i = from;
    while i < s.len() && s[i] != SPACE
        invariant
            from <= i <= s@.len(),
            forall|j: int| from <= j < i ==> s@[j] != SPACE,
        decreases s@.len() - i,
    {
        i = i + 1;
    }
    proof {
        let t = s@.subrange(from as int, s@.len() as int);
        assert forall|j: int| 0 <= j < i - from implies t[j] != SPACE by {
            assert(t[j] == s@[from + j]);
        }
        lemma_space_at(t, i - from);
    }
    i
}

fn copy_range(s: &[u8], a: usize, b: usize) -> (r: Vec<u8>)
    requires
        a <= b <= s@.len(),
    ensures
        r@ == s@.subrange(a as int, b as int),
{
    let mut r: Vec<u8> = Vec::new();
    let mut i = a;
    while i < b
        invariant
            a <= i <= b,
            b <= s@.len(),
            r@ == s@.subrange(a as int, i as int),
        decreases b - i,
    {
        r.push(s[i]);
        i = i + 1;
        assert(r@ =~= s@.subrange(a as int, i as int));
    }
    r
}

fn starts_with(s: &[u8], a: usize, b: usize, p: &[u8]) -> (r: bool)
    requires
        a <= b <= s@.len(),
    ensures
        r == has_prefix(s@.subrange(a as int, b as int), p@),
{
    if p.len() > b - a {
        return false;
    }
    let mut i: usize = 0;
    while i < p.len()
        invariant
            p@.len() <= b - a,
            b <= s@.len(),
            i <= p@.len(),
            forall|j: int| 0 <= j < i ==> s@[a + j] == p@[j],
        decreases p@.len() - i,
    {
        if s[a + i] != p[i] {
            assert(s@.subrange(a as int, b as int).subrange(0, p@.len() as int)[i as int]
                != p@[i as int]);
            return false;
        }
        i = i + 1;
    }
    assert(s@.subrange(a as int, b as int).subrange(0, p@.len() as int) =~= p@);
    true
}

/// Reads one line of the branch list; see `ref_line_spec`.
pub fn parse_ref_line(line: &[u8]) -> (r: Option<RefLine>)
    ensures
        match r {
            Some(e) => ref_line_spec(line@) == Some(e@),
            None => ref_line_spec(line@) is None,
        },
{
    let n = line.len();
    let p1 = find_space(line, 0);
    assert(line@.subrange(0, n as int) =~= line@);
    if p1 >= n {
        return None;
    }
    let p2 = find_space(line, p1 + 1);
    let ghost rest = line@.subrange(p1 + 1, n as int);
    if p2 >= n {
        return None;
    }
    proof {
        assert(rest.subrange(0, p2 - p1 - 1) =~= line@.subrange(p1 + 1, p2 as int));
        assert(rest.subrange(p2 - p1, rest.len() as int) =~= line@.subrange(p2 + 1, n as int));
    }
    let heads: [u8; 11] = [0x72, 0x65, 0x66, 0x73, 0x2f, 0x68, 0x65, 0x61, 0x64, 0x73, 0x2f];
    let remotes: [u8; 13] = [
        0x72,
        0x65,
        0x66,
        0x73,
        0x2f,
        0x72,
        0x65,
        0x6d,
        0x6f,
        0x74,
        0x65,
        0x73,
        0x2f,
    ];
    assert(heads@ =~= heads_prefix());
    assert(remotes@ =~= remotes_prefix());
    if !starts_with(line, 0, p1, heads.as_slice()) {
        return None;
    }
    let local = copy_range(line, 11, p1);
    assert(line@.subrange(0, p1 as int).subrange(11, p1 as int) =~= line@.subrange(11, p1 as int));
    let remote = if starts_with(line, p1 + 1, p2, remotes.as_slice()) {
        assert(line@.subrange(p1 + 1, p2 as int).subrange(13, p2 - p1 - 1) =~= line@.subrange(
            p1 + 14,
            p2 as int,
        ));
        copy_range(line, p1 + 14, p2)
    } else {
        let v: Vec<u8> = Vec::new();
        assert(v@ =~= Seq::<u8>::empty());
        v
    };
    let subject = copy_range(line, p2 + 1, n);
    Some(RefLine { local, remote, subject })
}


pub open spec fn views(v: Seq<Vec<u8>>) -> Seq<Seq<u8>> {
    v.map_values(|x: Vec<u8>| x@)
}

/// Splits command output into its lines, as `lines` describes.
pub fn split_lines(s: &[u8]) -> (r: Vec<Vec<u8>>)
    ensures
        views(r@) == lines(s@),
{
    let mut done: Vec<Vec<u8>> = Vec::new();
    let mut cur: Vec<u8> = Vec::new();
    let mut i: usize = 0;
    assert(views(done@).push(cur@) =~= segments(s@.subrange(0, 0)));
    while i < s.len()
        invariant
            i <= s@.len(),
            views(done@).push(cur@) == segments(s@.subrange(0, i as int)),
        decreases s@.len() - i,
    {
        let ghost pre = s@.subrange(0, i as int + 1);
        assert(pre.drop_last() =~= s@.subrange(0, i as int));
        let ghost before_done = done@;
        let ghost before_cur = cur@;
        if s[i] == NEWLINE {
            let mut finished: Vec<u8> = Vec::new();
            core::mem::swap(&mut cur, &mut finished);
            done.push(finished);
            assert(views(done@) =~= views(before_done).push(before_cur));
            assert(views(done@).push(cur@) =~= segments(pre));
        } else {
            cur.push(s[i]);
            assert(views(done@).push(cur@) =~= segments(pre));
        }
        i = i + 1;
    }
    assert(s@.subrange(0, i as int) =~= s@);
    let ghost g = views(done@).push(cur@);
    if cur.len() > 0 {
        let ghost before_done = done@;
        done.push(cur);
        assert(views(done@) =~= g);
    } else {
        assert(views(done@) =~= g.drop_last());
    }
    done
}

/// Reads the output of the `show_refs` command: one entry per line, or `None` where a
/// line is not of the expected form.
pub fn parse_show_refs(out: &[u8]) -> (r: Option<Vec<RefLine>>)
    ensures
        match r {
            Some(v) => v@.len() == lines(out@).len() && forall|i: int|
                0 <= i < v@.len() ==> ref_line_spec(lines(out@)[i]) == Some(
                    (#[trigger] v@[i])@,
                ),
            None => exists|i: int|
                0 <= i < lines(out@).len() && (#[trigger] ref_line_spec(lines(out@)[i])) is None,
        },
{
    let ls = split_lines(out);
    let mut r: Vec<RefLine> = Vec::new();
    let mut i: usize = 0;
    while i < ls.len()
        invariant
            views(ls@) == lines(out@),
            i <= ls@.len(),
            r@.len() == i,
            forall|j: int|
                0 <= j < i ==> ref_line_spec(lines(out@)[j]) == Some((#[trigger] r@[j])@),
        decreases ls@.len() - i,
    {
        assert(views(ls@)[i as int] == ls@[i as int]@);
        match parse_ref_line(ls[i].as_slice()) {
            Some(e) => r.push(e),
            None => {
                assert(ref_line_spec(lines(out@)[i as int]) is None);
                return None;
            },
        }
        i = i + 1;
    }
    Some(r)
}

} // verus!
