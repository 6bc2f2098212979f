use vstd::prelude::*;
use vstd::slice::slice_index_get;

verus! {

/// One extracted stweem: its display name and its assembled URL.
#[derive(Debug)]
pub struct ExtractedBooiesExampleStweem {
    pub name: String,
    pub url: String,
}

/// The extracted stweems of one subscription, grouped per booies number,
/// groups in ascending key order.
#[derive(Debug)]
pub struct EBESMap(pub Vec<(u64, Vec<ExtractedBooiesExampleStweem>)>);

/// The fixed first line of the formatted list.
pub open spec fn header_text() -> Seq<char> {
    "##Random Text File Format Header##"@
}

/// The text block of one stweem in the formatted list: its name line and
/// its URL line.
pub open spec fn stweem_entry_text(s: ExtractedBooiesExampleStweem) -> Seq<char> {
    "#NAME#"@ + s.name@ + "\n"@ + "#URL#"@ + s.url@ + "\n"@
}

/// The text of the first `n` stweems, in order.
pub open spec fn entries_upto(l: Seq<ExtractedBooiesExampleStweem>, n: int) -> Seq<char>
    decreases n,
{
    if n <= 0 {
        Seq::empty()
    } else {
        entries_upto(l, n - 1) + stweem_entry_text(l[n - 1])
    }
}

/// The stweems of the first `n` groups of one map, flattened in order.
pub open spec fn groups_upto(gs: Seq<(u64, Vec<ExtractedBooiesExampleStweem>)>, n: int) -> Seq<
    ExtractedBooiesExampleStweem,
>
    decreases n,
{
    if n <= 0 {
        Seq::empty()
    } else {
        groups_upto(gs, n - 1) + gs[n - 1].1@
    }
}

/// The stweems one optional map contributes: all of its groups' stweems,
/// or none.
pub open spec fn opt_map_stweems(o: Option<EBESMap>) -> Seq<ExtractedBooiesExampleStweem> {
    match o {
        Some(m) => groups_upto(m.0@, m.0@.len() as int),
        None => Seq::empty(),
    }
}

/// The stweems of the first `n` maps of a collection, flattened in order.
pub open spec fn multi_upto(ms: Seq<Option<EBESMap>>, n: int) -> Seq<
    ExtractedBooiesExampleStweem,
>
    decreases n,
{
    if n <= 0 {
        Seq::empty()
    } else {
        multi_upto(ms, n - 1) + opt_map_stweems(ms[n - 1])
    }
}

/// The whole formatted list: the header, then every stweem's text block,
/// in map order, group order, stweem order.
pub open spec fn formatted_list_text(ms: Seq<Option<EBESMap>>) -> Seq<char> {
    let all = multi_upto(ms, ms.len() as int);
    header_text() + entries_upto(all, all.len() as int)
}

proof fn lemma_entries_upto_agree(
    a: Seq<ExtractedBooiesExampleStweem>,
    b: Seq<ExtractedBooiesExampleStweem>,
    n: int,
)
    requires
        0 <= n <= a.len(),
        n <= b.len(),
        forall|i: int| 0 <= i < n ==> a[i] == b[i],
    ensures
        entries_upto(a, n) == entries_upto(b, n),
    decreases n,
{
    if n > 0 {
        lemma_entries_upto_agree(a, b, n - 1);
    }
}

impl EBESMap {
    /// Format several subscriptions' maps as one text list: the fixed
    /// header, then for every stweem its name line and its URL line, maps,
    /// groups and stweems kept in order.
    pub fn multi_to_formatted_list(multi: &[Option<EBESMap>]) -> (r: String)
        ensures
            r@ == formatted_list_text(multi@),
    {
        let mut ret = String::new();
        ret.append("##Random Text File Format Header##");
        let mut mi: usize = 0;
        while mi < multi.len()
            invariant
                mi <= multi@.len(),
                ({
                    let s = multi_upto(multi@, mi as int);
                    ret@ == header_text() + entries_upto(s, s.len() as int)
                }),
            decreases multi@.len() - mi,
        {
            match slice_index_get(multi, mi) {
                None => {
                    proof {
                        let s0 = multi_upto(multi@, mi as int);
                        assert(multi_upto(multi@, mi + 1) =~= s0);
                    }
                },
                Some(m) => {
                    let ghost base = multi_upto(multi@, mi as int);
                    let gs = &m.0;
                    let mut gi: usize = 0;
                    while gi < gs.len()
                        invariant
                            gi <= gs@.len(),
                            mi < multi@.len(),
                            base == multi_upto(multi@, mi as int),
                            opt_map_stweems(multi@[mi as int]) == groups_upto(
                                gs@,
                                gs@.len() as int,
                            ),
                            ({
                                let s = base + groups_upto(gs@, gi as int);
                                ret@ == header_text() + entries_upto(s, s.len() as int)
                            }),
                        decreases gs@.len() - gi,
                    {
                        let grp = &gs[gi].1;
                        let ghost gbase = base + groups_upto(gs@, gi as int);
                        let mut si: usize = 0;
                        while si < grp.len()
                            invariant
                                si <= grp@.len(),
                                gi < gs@.len(),
                                grp@ == gs@[gi as int].1@,
                                gbase == base + groups_upto(gs@, gi as int),
                                ({
                                    let s = gbase + grp@.take(si as int);
                                    ret@ == header_text() + entries_upto(s, s.len() as int)
                                }),
                            decreases grp@.len() - si,
                        {
                            let st = &grp[si];
                            ret.append("#NAME#");
                            ret.append(st.name.as_str());
                            ret.append("\n");
                            ret.append("#URL#");
                            ret.append(st.url.as_str());
                            ret.append("\n");
                            proof {
                                let s_old = gbase + grp@.take(si as int);
                                let s_new = gbase + grp@.take(si as int + 1);
                                assert(s_new =~= s_old.push(grp@[si as int]));
                                lemma_entries_upto_agree(s_new, s_old, s_old.len() as int);
                                assert(ret@ =~= header_text() + entries_upto(
                                    s_new,
                                    s_new.len() as int,
                                ));
                            }
                            si = si + 1;
                        }
                        proof {
                            assert(grp@.take(grp@.len() as int) =~= grp@);
                            assert(gbase + grp@ =~= base + groups_upto(gs@, gi + 1));
                        }
                        gi = gi + 1;
                    }
                    proof {
                        assert(multi_upto(multi@, mi + 1) =~= base + groups_upto(
                            gs@,
                            gs@.len() as int,
                        ));
                    }
                },
            }
            mi = mi + 1;
        }
        ret
    }
}

} // verus!