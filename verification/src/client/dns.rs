//! DNS leak protection: the resolver configuration Veil installs and the
//! one it restores.
use vstd::prelude::*;

use crate::text::{chars_of, find_from, first_index_from, is_whitespace, is_whitespace_exec, push_str, str_eq, string_of, trim, trim_spec};

verus! {

/// The resolvers that were in place before protection was activated.
#[derive(Debug, Clone)]
pub struct DnsProtection {
    pub original_resolvers: Vec<String>,
}

/// `/etc/resolv.conf` pointing at one nameserver, marked as Veil's.
pub open spec fn managed_resolv_conf(nameserver: Seq<char>) -> Seq<char> {
    "# Managed by Veil\nnameserver "@ + nameserver + "\n"@
}

/// `/etc/resolv.conf` listing the given nameservers, one per line.
pub open spec fn restored_resolv_conf(resolvers: Seq<String>) -> Seq<char>
    decreases resolvers.len(),
{
    if resolvers.len() == 0 {
        Seq::empty()
    } else {
        restored_resolv_conf(resolvers.drop_last()) + "nameserver "@ + resolvers.last()@ + "\n"@
    }
}

/// The text views of some strings.
pub open spec fn strings_view(v: Seq<String>) -> Seq<Seq<char>> {
    v.map_values(|x: String| x@)
}

/// The one-element sequence of a present value, the empty one otherwise.
pub open spec fn opt_seq(o: Option<Seq<char>>) -> Seq<Seq<char>> {
    match o {
        Some(x) => seq![x],
        None => Seq::empty(),
    }
}

/// The nameserver a `resolv.conf` line names: after trimming, the word
/// `nameserver`, white space, then the address (trimmed).
pub open spec fn line_nameserver(line: Seq<char>) -> Option<Seq<char>> {
    let t = trim_spec(line);
    if t.len() > 10 && t.subrange(0, 10) == "nameserver"@ && is_whitespace(t[10]) {
        Some(trim_spec(t.subrange(10, t.len() as int)))
    } else {
        None
    }
}

/// The nameservers of a `resolv.conf` text, line by line, in order.
pub open spec fn resolv_nameservers(s: Seq<char>) -> Seq<Seq<char>>
    decreases s.len(),
{
    match first_index_from(s, '\n', 0) {
        None => opt_seq(line_nameserver(s)),
        Some(i) => if 0 <= i < s.len() {
            opt_seq(line_nameserver(s.subrange(0, i))) + resolv_nameservers(
                s.subrange(i + 1, s.len() as int),
            )
        } else {
            Seq::empty()
        },
    }
}

/// The nameserver of one line (`line_nameserver`).
fn line_nameserver_exec(line: &str) -> (r: Option<String>)
    ensures
        match line_nameserver(line@) {
            Some(x) => r matches Some(s) && s@ == x,
            None => r is None,
        },
{
    let t = trim(line);
    let tc = chars_of(t.as_str());
    if tc.len() <= 10 {
        return None;
    }
    let head = string_of(&tc, 0, 10);
    if !str_eq(head.as_str(), "nameserver") || !is_whitespace_exec(tc[10]) {
        return None;
    }
    let addr = string_of(&tc, 10, tc.len());
    Some(trim(addr.as_str()))
}

impl DnsProtection {
    /// Protection that will restore `original_resolvers`.
    pub fn new(original_resolvers: Vec<String>) -> (d: Self)
        ensures
            d.original_resolvers@ == original_resolvers@,
    {
        DnsProtection { original_resolvers }
    }

    /// The nameservers a `resolv.conf` text lists, in order (see
    /// `resolv_nameservers`).
    pub fn get_system_resolvers(resolv_conf: &str) -> (v: Vec<String>)
        ensures
            strings_view(v@) == resolv_nameservers(resolv_conf@),
    {
        let mut out: Vec<String> = Vec::new();
        let mut rest = chars_of(resolv_conf);
        while rest.len() > 0
            invariant
                resolv_nameservers(resolv_conf@) == strings_view(out@) + resolv_nameservers(rest@),
            decreases rest.len(),
        {
            let (end, next) = match find_from(&rest, '\n', 0) {
                Some(i) => (i, i + 1),
                None => (rest.len(), rest.len()),
            };
            let line = string_of(&rest, 0, end);
            let found = line_nameserver_exec(line.as_str());
            let ghost before = strings_view(out@);
            match found {
                Some(ns) => {
                    out.push(ns);
                    assert(strings_view(out@) =~= before + seq![line_nameserver(line@)->0]);
                },
                None => {},
            }
            let tail = string_of(&rest, next, rest.len());
            let tail_cs = chars_of(tail.as_str());
            proof {
                let r = rest@;
                if first_index_from(r, '\n', 0) is None {
                    assert(r.subrange(0, r.len() as int) =~= r);
                    assert(tail_cs@ =~= Seq::<char>::empty());
                }
                assert(resolv_nameservers(r) == opt_seq(line_nameserver(line@)) + resolv_nameservers(
                    tail_cs@,
                ));
                assert(strings_view(out@) =~= before + opt_seq(line_nameserver(line@)));
            }
            rest = tail_cs;
        }
        out
    }

    /// The resolver configuration that sends all queries to `nameserver`.
    pub fn managed_config(nameserver: &str) -> (s: String)
        ensures
            s@ == managed_resolv_conf(nameserver@),
    {
        let mut s = String::new();
        push_str(&mut s, "# Managed by Veil\nnameserver ");
        push_str(&mut s, nameserver);
        push_str(&mut s, "\n");
        s
    }

    /// The resolver configuration that brings the original resolvers back.
    pub fn restored_config(&self) -> (s: String)
        ensures
            s@ == restored_resolv_conf(self.original_resolvers@),
    {
        let rs = &self.original_resolvers;
        let mut s = String::new();
        let mut i: usize = 0;
        while i < rs.len()
            invariant
                i <= rs.len(),
                rs@ == self.original_resolvers@,
                s@ == restored_resolv_conf(rs@.take(i as int)),
            decreases rs.len() - i,
        {
            push_str(&mut s, "nameserver ");
            push_str(&mut s, rs[i].as_str());
            push_str(&mut s, "\n");
            assert(rs@.take(i + 1).drop_last() =~= rs@.take(i as int));
            i = i + 1;
        }
        assert(rs@.take(rs.len() as int) =~= rs@);
        s
    }
}

} // verus!

verus! {

/// An address the restored configuration writes back faithfully: not empty,
/// no white space at either end, no line break.
pub open spec fn restorable(r: Seq<char>) -> bool {
    &&& r.len() > 0
    &&& !is_whitespace(r[0])
    &&& !is_whitespace(r.last())
    &&& forall|i: int| 0 <= i < r.len() ==> #[trigger] r[i] != '\n'
}

proof fn lemma_trim_keeps(s: Seq<char>)
    requires
        s.len() > 0,
        !is_whitespace(s[0]),
        !is_whitespace(s.last()),
    ensures
        trim_spec(s) == s,
{
    assert(crate::text::trim_start_spec(s) == s);
}

proof fn lemma_trim_start_no_newline(s: Seq<char>)
    requires
        forall|i: int| 0 <= i < s.len() ==> #[trigger] s[i] != '\n',
    ensures
        forall|i: int| 0 <= i < crate::text::trim_start_spec(s).len() ==> #[trigger] crate::text::trim_start_spec(s)[i] != '\n',
        crate::text::trim_start_spec(s).len() > 0 ==> !is_whitespace(crate::text::trim_start_spec(s)[0]),
        crate::text::trim_start_spec(s).len() > 0 ==> crate::text::trim_start_spec(s).last() == s.last(),
    decreases s.len(),
{
    if s.len() > 0 && is_whitespace(s[0]) {
        let t = s.drop_first();
        assert forall|i: int| 0 <= i < t.len() implies #[trigger] t[i] != '\n' by {
            assert(t[i] == s[i + 1]);
        }
        lemma_trim_start_no_newline(t);
    }
}

proof fn lemma_trim_end_no_newline(s: Seq<char>)
    requires
        forall|i: int| 0 <= i < s.len() ==> #[trigger] s[i] != '\n',
    ensures
        forall|i: int| 0 <= i < crate::text::trim_end_spec(s).len() ==> #[trigger] crate::text::trim_end_spec(s)[i] != '\n',
        crate::text::trim_end_spec(s).len() > 0 ==> !is_whitespace(crate::text::trim_end_spec(s).last()),
        crate::text::trim_end_spec(s).len() > 0 ==> crate::text::trim_end_spec(s)[0] == s[0],
    decreases s.len(),
{
    if s.len() > 0 && is_whitespace(s.last()) {
        let t = s.drop_last();
        assert forall|i: int| 0 <= i < t.len() implies #[trigger] t[i] != '\n' by {
            assert(t[i] == s[i]);
        }
        lemma_trim_end_no_newline(t);
        if crate::text::trim_end_spec(t).len() > 0 {
            assert(t[0] == s[0]);
        }
    }
}

/// Trimming a line without a line break gives a text without one, whose
/// ends are not white space.
proof fn lemma_trim_restorable(s: Seq<char>)
    requires
        forall|i: int| 0 <= i < s.len() ==> #[trigger] s[i] != '\n',
        trim_spec(s).len() > 0,
    ensures
        restorable(trim_spec(s)),
{
    lemma_trim_start_no_newline(s);
    let a = crate::text::trim_start_spec(s);
    lemma_trim_end_no_newline(a);
}

/// Every nameserver read from a line without a line break is restorable.
proof fn lemma_line_nameserver_restorable(line: Seq<char>)
    requires
        forall|i: int| 0 <= i < line.len() ==> #[trigger] line[i] != '\n',
    ensures
        line_nameserver(line) matches Some(x) ==> restorable(x),
{
    let t = trim_spec(line);
    if t.len() > 10 && t.subrange(0, 10) == "nameserver"@ && is_whitespace(t[10]) {
        lemma_trim_restorable(line);
        let u = t.subrange(10, t.len() as int);
        assert forall|i: int| 0 <= i < u.len() implies #[trigger] u[i] != '\n' by {
            assert(u[i] == t[i + 10]);
        }
        assert(u.last() == t.last());
        lemma_trim_start_no_newline(u);
        lemma_trim_end_no_newline(crate::text::trim_start_spec(u));
        assert(crate::text::trim_start_spec(u).len() > 0) by {
            if crate::text::trim_start_spec(u).len() == 0 {
                lemma_trim_start_empty_means_all_space(u);
                assert(is_whitespace(u[u.len() - 1]));
            }
        }
        lemma_trim_restorable(u);
    }
}

proof fn lemma_trim_start_empty_means_all_space(s: Seq<char>)
    requires
        crate::text::trim_start_spec(s).len() == 0,
    ensures
        forall|i: int| 0 <= i < s.len() ==> is_whitespace(#[trigger] s[i]),
    decreases s.len(),
{
    if s.len() > 0 {
        let t = s.drop_first();
        lemma_trim_start_empty_means_all_space(t);
        assert forall|i: int| 0 <= i < s.len() implies is_whitespace(#[trigger] s[i]) by {
            if i > 0 {
                assert(s[i] == t[i - 1]);
            }
        }
    }
}

/// Every nameserver a `resolv.conf` text names is restorable.
pub proof fn lemma_read_nameservers_restorable(s: Seq<char>)
    ensures
        forall|i: int| 0 <= i < resolv_nameservers(s).len() ==> restorable(#[trigger] resolv_nameservers(s)[i]),
    decreases s.len(),
{
    crate::text::lemma_first_index_from(s, '\n', 0);
    match first_index_from(s, '\n', 0) {
        None => {
            lemma_line_nameserver_restorable(s);
        },
        Some(k) => {
            if 0 <= k < s.len() {
                let line = s.subrange(0, k);
                assert forall|i: int| 0 <= i < line.len() implies #[trigger] line[i] != '\n' by {
                    assert(line[i] == s[i]);
                }
                lemma_line_nameserver_restorable(line);
                lemma_read_nameservers_restorable(s.subrange(k + 1, s.len() as int));
                let a = opt_seq(line_nameserver(line));
                let b = resolv_nameservers(s.subrange(k + 1, s.len() as int));
                assert forall|i: int| 0 <= i < (a + b).len() implies restorable(#[trigger] (a + b)[i]) by {
                    if i >= a.len() {
                        assert((a + b)[i] == b[i - a.len()]);
                    }
                }
            }
        },
    }
}

/// The line written for one nameserver reads back as that nameserver.
proof fn lemma_line_reads_back(r: Seq<char>)
    requires
        restorable(r),
    ensures
        line_nameserver("nameserver "@ + r) == Some(r),
{
    reveal_strlit("nameserver ");
    reveal_strlit("nameserver");
    let line = "nameserver "@ + r;
    assert(line[0] == 'n');
    assert(line.last() == r.last());
    lemma_trim_keeps(line);
    assert(line.subrange(0, 10) =~= "nameserver"@);
    let u = line.subrange(10, line.len() as int);
    assert(u =~= seq![' '] + r);
    assert(u.drop_first() =~= r);
    assert(crate::text::trim_start_spec(r) == r);
    assert(crate::text::trim_start_spec(u) == r);
    lemma_trim_keeps(r);
}

/// Reading a text that ends a line (or is empty) followed by another is
/// reading each in turn.
proof fn lemma_read_concat(a: Seq<char>, b: Seq<char>)
    requires
        a.len() == 0 || a.last() == '\n',
    ensures
        resolv_nameservers(a + b) == resolv_nameservers(a) + resolv_nameservers(b),
    decreases a.len(),
{
    if a.len() == 0 {
        assert(a + b =~= b);
        crate::text::lemma_first_index_from(a, '\n', 0);
        assert(trim_spec(a).len() == 0);
        assert(resolv_nameservers(a) =~= Seq::<Seq<char>>::empty());
        assert(Seq::<Seq<char>>::empty() + resolv_nameservers(b) =~= resolv_nameservers(b));
    } else {
        let s = a + b;
        crate::text::lemma_first_index_from(a, '\n', 0);
        crate::text::lemma_first_index_from(s, '\n', 0);
        assert(a[a.len() - 1] == '\n');
        let k = first_index_from(a, '\n', 0)->0;
        assert(s[k] == a[k]);
        let ks = first_index_from(s, '\n', 0)->0;
        assert(ks == k) by {
            if ks < k {
                assert(s[ks] == a[ks]);
            }
            if ks > k {
                assert(s[k] != '\n');
            }
        }
        let rest = a.subrange(k + 1, a.len() as int);
        assert(s.subrange(0, k) =~= a.subrange(0, k));
        assert(s.subrange(k + 1, s.len() as int) =~= rest + b);
        if rest.len() > 0 {
            assert(rest.last() == a.last());
        }
        lemma_read_concat(rest, b);
        assert(opt_seq(line_nameserver(a.subrange(0, k))) + (resolv_nameservers(rest) + resolv_nameservers(b))
            =~= opt_seq(line_nameserver(a.subrange(0, k))) + resolv_nameservers(rest) + resolv_nameservers(b));
    }
}

/// Restoring writes back exactly the nameservers it was given, in order,
/// when each is restorable.
pub proof fn lemma_restore_reads_back(rs: Seq<String>)
    requires
        forall|i: int| 0 <= i < rs.len() ==> restorable(#[trigger] rs[i]@),
    ensures
        resolv_nameservers(restored_resolv_conf(rs)) == strings_view(rs),
    decreases rs.len(),
{
    if rs.len() == 0 {
        assert(resolv_nameservers(Seq::empty()) =~= Seq::<Seq<char>>::empty());
        assert(strings_view(rs) =~= Seq::<Seq<char>>::empty());
    } else {
        let init = rs.drop_last();
        assert forall|i: int| 0 <= i < init.len() implies restorable(#[trigger] init[i]@) by {
            assert(init[i] == rs[i]);
        }
        lemma_restore_reads_back(init);
        let r = rs.last()@;
        assert(restorable(rs[rs.len() - 1]@));
        let line = "nameserver "@ + r + "\n"@;
        let prev = restored_resolv_conf(init);
        assert(restored_resolv_conf(rs) =~= prev + line);
        if prev.len() > 0 {
            assert(prev.last() == '\n') by {
                reveal_strlit("\n");
            }
        }
        lemma_read_concat(prev, line);
        // The one line.
        crate::text::lemma_first_index_from(line, '\n', 0);
        reveal_strlit("nameserver ");
        reveal_strlit("\n");
        let body = "nameserver "@ + r;
        assert(line =~= body + seq!['\n']);
        let n = body.len() as int;
        assert(line[n] == '\n');
        assert forall|j: int| 0 <= j < n implies line[j] != '\n' by {
            if j >= 11 {
                assert(line[j] == r[j - 11]);
            }
        }
        let w = first_index_from(line, '\n', 0)->0;
        assert(w == n) by {
            if w < n {
            }
            if w > n {
                assert(line[n] != '\n');
            }
        }
        assert(line.subrange(0, n) =~= body);
        assert(line.subrange(n + 1, line.len() as int) =~= Seq::<char>::empty());
        crate::text::lemma_first_index_from(Seq::<char>::empty(), '\n', 0);
        assert(trim_spec(Seq::<char>::empty()).len() == 0);
        assert(resolv_nameservers(Seq::<char>::empty()) =~= Seq::<Seq<char>>::empty());
        lemma_line_reads_back(r);
        assert(resolv_nameservers(line) =~= seq![r]);
        assert(strings_view(rs) =~= strings_view(init).push(r));
    }
}

/// Deactivation restores the original settings: the configuration written
/// from the nameservers read out of a `resolv.conf` text lists exactly
/// those nameservers, in the same order.
pub proof fn lemma_restore_what_was_read(text: Seq<char>, rs: Seq<String>)
    requires
        strings_view(rs) == resolv_nameservers(text),
    ensures
        resolv_nameservers(restored_resolv_conf(rs)) == resolv_nameservers(text),
{
    lemma_read_nameservers_restorable(text);
    assert forall|i: int| 0 <= i < rs.len() implies restorable(#[trigger] rs[i]@) by {
        assert(strings_view(rs)[i] == rs[i]@);
    }
    lemma_restore_reads_back(rs);
}

} // verus!
