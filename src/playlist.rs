use vstd::prelude::*;

verus! {

/// The cursor position after `c` in a playlist of `n` entries: the successor
/// modulo `n`.
pub open spec fn next_cursor(c: nat, n: nat) -> nat {
    if c + 1 >= n {
        0
    } else {
        c + 1
    }
}

/// The cursor after `k` starts from position `c`; it is also the entry that
/// the start numbered `k` (counting from zero) selects.
pub open spec fn cursor_after(c: nat, n: nat, k: nat) -> nat
    decreases k,
{
    if k == 0 {
        c
    } else {
        next_cursor(cursor_after(c, n, (k - 1) as nat), n)
    }
}

/// A manifest line that starts with `#` is a comment.
pub open spec fn is_comment(line: Seq<char>) -> bool {
    line.len() > 0 && line[0] == '#'
}

/// The entries of a manifest: its lines that are not comments, in order.
pub open spec fn manifest_entries_of(lines: Seq<Seq<char>>) -> Seq<Seq<char>> {
    lines.filter(|l: Seq<char>| !is_comment(l))
}

pub open spec fn views(v: Seq<String>) -> Seq<Seq<char>> {
    v.map_values(|s: String| s@)
}

/// An entry of the manifest that did not resolve to an existing file.
#[derive(Debug, Clone, Copy, PartialEq, Eq, Structural)]
pub struct MissingEntry {
    pub index: usize,
}

/// The fixed, ordered list of audio references and the cursor naming the
/// entry that plays next.
pub struct Playlist {
    entries: Vec<String>,
    cursor: usize,
}

impl Playlist {
    pub closed spec fn entries(&self) -> Seq<Seq<char>> {
        views(self.entries@)
    }

    pub closed spec fn cursor(&self) -> nat {
        self.cursor as nat
    }

    pub open spec fn len(&self) -> nat {
        self.entries().len()
    }

    /// The cursor is a valid index, or zero when there are no entries.
    pub open spec fn wf(&self) -> bool {
        if self.len() == 0 {
            self.cursor() == 0
        } else {
            self.cursor() < self.len()
        }
    }

    /// A playlist over these entries with the cursor on the first.
    pub fn new(entries: Vec<String>) -> (r: Self)
        ensures
            r.wf(),
            r.entries() == views(entries@),
            r.cursor() == 0,
    {
        Playlist { entries, cursor: 0 }
    }

    pub fn len_exec(&self) -> (r: usize)
        ensures
            r == self.len(),
    {
        self.entries.len()
    }

    pub fn cursor_exec(&self) -> (r: usize)
        ensures
            r == self.cursor(),
    {
        self.cursor
    }

    /// The entry the next start would select, if there is any.
    pub fn upcoming(&self) -> (r: Option<String>)
        requires
            self.wf(),
        ensures
            self.len() == 0 ==> r is None,
            self.len() > 0 ==> r is Some && r->0@ == self.entries()[self.cursor() as int],
    {
        if self.entries.len() == 0 {
            None
        } else {
            Some(self.entries[self.cursor].clone())
        }
    }

    /// Selects the entry under the cursor and moves the cursor to the next
    /// one, wrapping to the first after the last. Returns the selected index
    /// and reference; an empty playlist selects nothing and is unchanged.
    pub fn advance(&mut self) -> (r: Option<(usize, String)>)
        requires
            old(self).wf(),
        ensures
            final(self).wf(),
            final(self).entries() == old(self).entries(),
            old(self).len() == 0 ==> r is None && final(self).cursor() == old(self).cursor(),
            old(self).len() > 0 ==> {
                &&& r matches Some((index, path)) && index == old(self).cursor() && path@
                    == old(self).entries()[old(self).cursor() as int]
                &&& final(self).cursor() == next_cursor(old(self).cursor(), old(self).len())
            },
    {
        let n = self.entries.len();
        if n == 0 {
            return None;
        }
        let i = self.cursor;
        let path = self.entries[i].clone();
        if i + 1 >= n {
            self.cursor = 0;
        } else {
            self.cursor = i + 1;
        }
        Some((i, path))
    }
}

/// Keeps the lines of a manifest that are not comments, in order.
pub fn manifest_entries(lines: &Vec<String>) -> (r: Vec<String>)
    ensures
        views(r@) == manifest_entries_of(views(lines@)),
{
    let mut out: Vec<String> = Vec::new();
    let mut i: usize = 0;
    while i < lines.len()
        invariant
            i <= lines.len(),
            views(out@) == manifest_entries_of(views(lines@).take(i as int)),
        decreases lines.len() - i,
    {
        let line = &lines[i];
        let comment = line.as_str().unicode_len() > 0 && line.as_str().get_char(0) == '#';
        let ghost before = views(lines@).take(i as int);
        let ghost after = views(lines@).take(i + 1);
        proof {
            assert(after.drop_last() =~= before);
            assert(after.last() == line@);
            reveal(Seq::filter);
        }
        if !comment {
            out.push(line.clone());
            assert(views(out@) =~= manifest_entries_of(after));
        }
        i += 1;
    }
    assert(views(lines@).take(lines.len() as int) =~= views(lines@));
    out
}

/// Builds the playlist from manifest entries and whether each one exists,
/// failing on the first entry that does not.
pub fn load_playlist(entries: Vec<String>, exists: &Vec<bool>) -> (r: Result<Playlist, MissingEntry>)
    requires
        exists@.len() == entries@.len(),
    ensures
        (forall|k: int| 0 <= k < exists@.len() ==> exists@[k]) <==> r is Ok,
        r matches Ok(p) ==> p.wf() && p.entries() == views(entries@) && p.cursor() == 0,
        r matches Err(e) ==> {
            &&& e.index < exists@.len()
            &&& !exists@[e.index as int]
            &&& forall|k: int| 0 <= k < e.index ==> exists@[k]
        },
{
    let mut i: usize = 0;
    while i < exists.len()
        invariant
            i <= exists@.len(),
            forall|k: int| 0 <= k < i ==> exists@[k],
        decreases exists@.len() - i,
    {
        if !exists[i] {
            return Err(MissingEntry { index: i });
        }
        i += 1;
    }
    Ok(Playlist::new(entries))
}

/// How many starts from position `c` it takes until entry `e` is selected.
pub open spec fn starts_until(c: nat, n: nat, e: nat) -> nat {
    if e >= c {
        (e - c) as nat
    } else {
        (e + n - c) as nat
    }
}

/// Starting anywhere in a playlist of `n` entries, `n` consecutive starts
/// select every entry exactly once, and the next start selects the same
/// entry as the first: from the first entry, the start after `n` replays it.
pub proof fn lemma_advance_wraps(n: nat, c: nat)
    requires
        0 < n,
        c < n,
    ensures
        forall|i: nat, j: nat|
            i < j < n ==> #[trigger] cursor_after(c, n, i) != #[trigger] cursor_after(c, n, j),
        forall|e: nat|
            e < n ==> #[trigger] starts_until(c, n, e) < n && cursor_after(c, n, starts_until(c, n, e))
                == e,
        cursor_after(c, n, n) == c,
{
    assert forall|k: nat| k <= n implies #[trigger] cursor_after(c, n, k) == (if c + k < n {
        c + k as int
    } else {
        c + k - n
    }) by {
        lemma_cursor_after_closed(n, c, k);
    }
}

proof fn lemma_cursor_after_closed(n: nat, c: nat, k: nat)
    requires
        0 < n,
        c < n,
        k <= n,
    ensures
        cursor_after(c, n, k) == (if c + k < n {
            c + k as int
        } else {
            c + k - n
        }),
    decreases k,
{
    if k > 0 {
        lemma_cursor_after_closed(n, c, (k - 1) as nat);
    }
}

} // verus!
