//! Summarising the checker results: which dictionaries have the word, which
//! do not, which could not tell, and the closing message.

use vstd::prelude::*;
use vstd::string::*;
use crate::checkers::CheckerResult;
use crate::format::{friendly_list, str_views, human_friendly_list_formatter};
use crate::text::{decimal, decimal_string};
use crate::theme::{colored_label, format_dict_colored};

verus! {

/// The results whose outcome is `want`, in the order given.
pub open spec fn with_outcome(rs: Seq<CheckerResult>, want: Option<bool>) -> Seq<CheckerResult>
    decreases rs.len(),
{
    if rs.len() == 0 {
        Seq::empty()
    } else {
        let rest = with_outcome(rs.drop_last(), want);
        if rs.last().result == want {
            rest.push(rs.last())
        } else {
            rest
        }
    }
}

/// The labels (parallel to `rs`) of the results whose outcome is `want`.
pub open spec fn labels_with_outcome(rs: Seq<CheckerResult>, labels: Seq<Seq<char>>, want: Option<bool>) -> Seq<Seq<char>>
    decreases rs.len(),
{
    if rs.len() == 0 || labels.len() == 0 {
        Seq::empty()
    } else {
        let rest = labels_with_outcome(rs.drop_last(), labels.drop_last(), want);
        if rs.last().result == want {
            rest.push(labels.last())
        } else {
            rest
        }
    }
}

/// The number of dictionaries that have the word and are community-edited
/// (`community`) or professionally edited (`!community`).
pub open spec fn found_count(rs: Seq<CheckerResult>, community: bool) -> nat
    decreases rs.len(),
{
    if rs.len() == 0 {
        0
    } else {
        found_count(rs.drop_last(), community)
            + if rs.last().result == Some(true) && rs.last().is_community == community { 1nat } else { 0nat }
    }
}

/// The display names of results.
pub open spec fn names_of(rs: Seq<CheckerResult>) -> Seq<Seq<char>> {
    rs.map_values(|r: CheckerResult| r.name@)
}

/// The closing message about `word`, given all checker results.
pub open spec fn message_spec(word: Seq<char>, rs: Seq<CheckerResult>) -> Seq<char> {
    let ins = with_outcome(rs, Some(true));
    let notins = with_outcome(rs, Some(false));
    let pro = found_count(rs, false);
    let community = found_count(rs, true);
    if ins.len() == 0 {
        "No sign of '"@ + word + "' in any dictionary I checked!"@
    } else if ins.len() == rs.len() {
        "'"@ + word + "' is in every dictionary I checked!"@
    } else if ins.len() == 1 {
        if pro == 0 {
            "'"@ + word + "' is only in "@ + ins[0].name@ + ", not in any professionally edited dictionary!"@
        } else {
            "Hmm '"@ + word + "' is in "@ + ins[0].name@ + ", but not in any other dictionary!"@
        }
    } else if community == ins.len() {
        "'"@ + word + "' is only in "@ + friendly_list(names_of(ins), "and"@)
            + " but not in any professionally edited dictionary!"@
    } else if notins.len() > 0 {
        "'"@ + word + "' is in "@ + friendly_list(names_of(ins), "and"@) + " but not in "@
            + friendly_list(names_of(notins), "or"@)
    } else {
        "'"@ + word + "' is in "@ + friendly_list(names_of(ins), "and"@) + " at least..."@
    }
}

/// The report lines about `word`, given all checker results and, parallel to
/// them, the coloured label of each result.
pub open spec fn report_spec(word: Seq<char>, rs: Seq<CheckerResult>, labels: Seq<Seq<char>>) -> Seq<Seq<char>> {
    let ins = with_outcome(rs, Some(true));
    let notins = with_outcome(rs, Some(false));
    let nulls = with_outcome(rs, None);
    let first = if ins.len() > 0 {
        seq!["[ISAWORD] in: "@ + friendly_list(labels_with_outcome(rs, labels, Some(true)), "and"@)]
    } else {
        seq!["[ISAWORD] in: none"@]
    };
    let counts = if ins.len() > 0 {
        seq![
            "[ISAWORD] in "@ + decimal(found_count(rs, false)) + " professional dictionaries vs "@
                + decimal(found_count(rs, true)) + " community dictionaries"@,
        ]
    } else {
        Seq::empty()
    };
    let missing = if notins.len() > 0 {
        seq!["[ISAWORD] not in: "@ + friendly_list(labels_with_outcome(rs, labels, Some(false)), "and"@)]
    } else {
        Seq::empty()
    };
    let unknown = if nulls.len() > 0 {
        seq!["[ISAWORD] null: "@ + friendly_list(labels_with_outcome(rs, labels, None), "and"@)]
    } else {
        Seq::empty()
    };
    first + counts + missing + unknown + seq![Seq::empty(), message_spec(word, rs)]
}

/// The views of a sequence of strings.
pub open spec fn string_views(v: Seq<String>) -> Seq<Seq<char>> {
    v.map_values(|s: String| s@)
}

proof fn lemma_found_count_bound(rs: Seq<CheckerResult>, community: bool)
    ensures
        found_count(rs, community) <= rs.len(),
    decreases rs.len(),
{
    if rs.len() > 0 {
        lemma_found_count_bound(rs.drop_last(), community);
    }
}

/// Every result is found, not found or unknown: the three groups together
/// are exactly as many as the results.
pub proof fn lemma_outcomes_partition(rs: Seq<CheckerResult>)
    ensures
        with_outcome(rs, Some(true)).len() + with_outcome(rs, Some(false)).len()
            + with_outcome(rs, None).len() == rs.len(),
    decreases rs.len(),
{
    if rs.len() > 0 {
        lemma_outcomes_partition(rs.drop_last());
        match rs.last().result {
            Some(true) => {},
            Some(false) => {},
            None => {},
        }
    }
}

/// The dictionaries that have the word are split exactly into professional
/// and community ones.
pub proof fn lemma_found_split(rs: Seq<CheckerResult>)
    ensures
        found_count(rs, false) + found_count(rs, true) == with_outcome(rs, Some(true)).len(),
    decreases rs.len(),
{
    if rs.len() > 0 {
        lemma_found_split(rs.drop_last());
    }
}

proof fn lemma_names_push(s: Seq<CheckerResult>, x: CheckerResult)
    ensures
        names_of(s.push(x)) == names_of(s).push(x.name@),
{
    assert(names_of(s.push(x)) =~= names_of(s).push(x.name@));
}

proof fn lemma_views_push(s: Seq<&str>, x: &str)
    ensures
        str_views(s.push(x)) == str_views(s).push(x@),
{
    assert(str_views(s.push(x)) =~= str_views(s).push(x@));
}

/// The closing message about `word`, given all checker results.
pub fn result_message(word: &str, results: &[CheckerResult]) -> (msg: String)
    ensures
        msg@ == message_spec(word@, results@),
{
    let ghost rs = results@;
    let n = results.len();
    let mut ins: Vec<&str> = Vec::new();
    let mut notins: Vec<&str> = Vec::new();
    let mut pro: usize = 0;
    let mut community: usize = 0;
    let mut i: usize = 0;
    while i < n
        invariant
            n == rs.len(),
            rs == results@,
            i <= n,
            str_views(ins@) == names_of(with_outcome(rs.take(i as int), Some(true))),
            str_views(notins@) == names_of(with_outcome(rs.take(i as int), Some(false))),
            pro == found_count(rs.take(i as int), false),
            community == found_count(rs.take(i as int), true),
        decreases n - i,
    {
        proof {
            lemma_found_count_bound(rs.take(i as int), false);
            lemma_found_count_bound(rs.take(i as int), true);
            assert(rs.take(i + 1).drop_last() =~= rs.take(i as int));
        }
        let r = &results[i];
        proof {
            lemma_names_push(with_outcome(rs.take(i as int), Some(true)), rs[i as int]);
            lemma_names_push(with_outcome(rs.take(i as int), Some(false)), rs[i as int]);
            lemma_views_push(ins@, r.name);
            lemma_views_push(notins@, r.name);
        }
        let ghost pre = rs.take(i as int);
        let ghost post = rs.take(i + 1);
        assert(post.last() == rs[i as int]);
        assert(post.drop_last() =~= pre);
        assert(with_outcome(post, Some(true)) == (if rs[i as int].result == Some(true) {
            with_outcome(pre, Some(true)).push(rs[i as int])
        } else {
            with_outcome(pre, Some(true))
        }));
        assert(with_outcome(post, Some(false)) == (if rs[i as int].result == Some(false) {
            with_outcome(pre, Some(false)).push(rs[i as int])
        } else {
            with_outcome(pre, Some(false))
        }));
        match r.result {
            Some(true) => {
                ins.push(r.name);
                if r.is_community {
                    community = community + 1;
                } else {
                    pro = pro + 1;
                }
            },
            Some(false) => {
                notins.push(r.name);
            },
            None => {},
        }
        i = i + 1;
    }
    assert(rs.take(n as int) =~= rs);
    proof {
        lemma_found_split(rs);
    }
    let ghost ins_rs = with_outcome(rs, Some(true));
    assert(ins@.len() == ins_rs.len());
    let mut msg = String::new();
    if ins.len() == 0 {
        msg.append("No sign of '");
        msg.append(word);
        msg.append("' in any dictionary I checked!");
    } else if ins.len() == n {
        msg.append("'");
        msg.append(word);
        msg.append("' is in every dictionary I checked!");
    } else if ins.len() == 1 {
        assert(str_views(ins@)[0] == ins_rs[0].name@);
        if pro == 0 {
            msg.append("'");
            msg.append(word);
            msg.append("' is only in ");
            msg.append(ins[0]);
            msg.append(", not in any professionally edited dictionary!");
        } else {
            msg.append("Hmm '");
            msg.append(word);
            msg.append("' is in ");
            msg.append(ins[0]);
            msg.append(", but not in any other dictionary!");
        }
    } else if community == ins.len() {
        let list = human_friendly_list_formatter(ins.as_slice(), "and");
        msg.append("'");
        msg.append(word);
        msg.append("' is only in ");
        msg.append(list.as_str());
        msg.append(" but not in any professionally edited dictionary!");
    } else if notins.len() > 0 {
        let list = human_friendly_list_formatter(ins.as_slice(), "and");
        let others = human_friendly_list_formatter(notins.as_slice(), "or");
        msg.append("'");
        msg.append(word);
        msg.append("' is in ");
        msg.append(list.as_str());
        msg.append(" but not in ");
        msg.append(others.as_str());
    } else {
        let list = human_friendly_list_formatter(ins.as_slice(), "and");
        msg.append("'");
        msg.append(word);
        msg.append("' is in ");
        msg.append(list.as_str());
        msg.append(" at least...");
    }
    msg
}

} // verus!

verus! {

/// Pushing a string pushes its view.
pub proof fn lemma_string_views_push(s: Seq<String>, x: String)
    ensures
        string_views(s.push(x)) == string_views(s).push(x@),
{
    assert(string_views(s.push(x)) =~= string_views(s).push(x@));
}

/// The report lines about `word`, given all checker results and, parallel to
/// them, the coloured label of each result.
pub fn report_lines_with_labels(word: &str, results: &[CheckerResult], labels: &Vec<String>) -> (lines: Vec<String>)
    requires
        labels.len() == results.len(),
    ensures
        string_views(lines@) == report_spec(word@, results@, string_views(labels@)),
{
    let ghost rs = results@;
    let ghost lv = string_views(labels@);
    let n = results.len();
    let mut ins: Vec<&str> = Vec::new();
    let mut notins: Vec<&str> = Vec::new();
    let mut nulls: Vec<&str> = Vec::new();
    let mut pro: usize = 0;
    let mut community: usize = 0;
    let mut i: usize = 0;
    while i < n
        invariant
            n == rs.len(),
            n == labels.len(),
            rs == results@,
            lv == string_views(labels@),
            i <= n,
            str_views(ins@) == labels_with_outcome(rs.take(i as int), lv.take(i as int), Some(true)),
            str_views(notins@) == labels_with_outcome(rs.take(i as int), lv.take(i as int), Some(false)),
            str_views(nulls@) == labels_with_outcome(rs.take(i as int), lv.take(i as int), None),
            ins@.len() == with_outcome(rs.take(i as int), Some(true)).len(),
            notins@.len() == with_outcome(rs.take(i as int), Some(false)).len(),
            nulls@.len() == with_outcome(rs.take(i as int), None).len(),
            pro == found_count(rs.take(i as int), false),
            community == found_count(rs.take(i as int), true),
        decreases n - i,
    {
        proof {
            lemma_found_count_bound(rs.take(i as int), false);
            lemma_found_count_bound(rs.take(i as int), true);
        }
        let r = &results[i];
        let label = labels[i].as_str();
        let ghost pre = rs.take(i as int);
        let ghost post = rs.take(i + 1);
        let ghost lpre = lv.take(i as int);
        let ghost lpost = lv.take(i + 1);
        assert(post.last() == rs[i as int]);
        assert(post.drop_last() =~= pre);
        assert(lpost.last() == lv[i as int]);
        assert(lpost.drop_last() =~= lpre);
        assert(lv[i as int] == label@);
        proof {
            lemma_views_push(ins@, label);
            lemma_views_push(notins@, label);
            lemma_views_push(nulls@, label);
        }
        match r.result {
            Some(true) => {
                ins.push(label);
                if r.is_community {
                    community = community + 1;
                } else {
                    pro = pro + 1;
                }
            },
            Some(false) => {
                notins.push(label);
            },
            None => {
                nulls.push(label);
            },
        }
        i = i + 1;
    }
    assert(rs.take(n as int) =~= rs);
    assert(lv.take(n as int) =~= lv);
    let mut lines: Vec<String> = Vec::new();
    let ghost spec_lines = report_spec(word@, rs, lv);
    let ghost ins_n = with_outcome(rs, Some(true)).len();
    let ghost first_s = if ins_n > 0 {
        seq!["[ISAWORD] in: "@ + friendly_list(labels_with_outcome(rs, lv, Some(true)), "and"@)]
    } else {
        seq!["[ISAWORD] in: none"@]
    };
    let ghost counts_s = if ins_n > 0 {
        seq![
            "[ISAWORD] in "@ + decimal(found_count(rs, false)) + " professional dictionaries vs "@
                + decimal(found_count(rs, true)) + " community dictionaries"@,
        ]
    } else {
        Seq::<Seq<char>>::empty()
    };
    let ghost missing_s = if with_outcome(rs, Some(false)).len() > 0 {
        seq!["[ISAWORD] not in: "@ + friendly_list(labels_with_outcome(rs, lv, Some(false)), "and"@)]
    } else {
        Seq::<Seq<char>>::empty()
    };
    let ghost unknown_s = if with_outcome(rs, None).len() > 0 {
        seq!["[ISAWORD] null: "@ + friendly_list(labels_with_outcome(rs, lv, None), "and"@)]
    } else {
        Seq::<Seq<char>>::empty()
    };
    assert(spec_lines == first_s + counts_s + missing_s + unknown_s + seq![Seq::<char>::empty(), message_spec(word@, rs)]);
    let mut first = String::new();
    if ins.len() > 0 {
        first.append("[ISAWORD] in: ");
        let list = human_friendly_list_formatter(ins.as_slice(), "and");
        first.append(list.as_str());
    } else {
        first.append("[ISAWORD] in: none");
    }
    proof { lemma_string_views_push(lines@, first); }
    lines.push(first);
    assert(string_views(lines@) =~= first_s);
    if ins.len() > 0 {
        let mut counts = String::new();
        counts.append("[ISAWORD] in ");
        let p = decimal_string(pro);
        counts.append(p.as_str());
        counts.append(" professional dictionaries vs ");
        let c = decimal_string(community);
        counts.append(c.as_str());
        counts.append(" community dictionaries");
        proof { lemma_string_views_push(lines@, counts); }
        lines.push(counts);
    }
    assert(string_views(lines@) =~= first_s + counts_s);
    if notins.len() > 0 {
        let mut line = String::new();
        line.append("[ISAWORD] not in: ");
        let list = human_friendly_list_formatter(notins.as_slice(), "and");
        line.append(list.as_str());
        proof { lemma_string_views_push(lines@, line); }
        lines.push(line);
    }
    assert(string_views(lines@) =~= first_s + counts_s + missing_s);
    if nulls.len() > 0 {
        let mut line = String::new();
        line.append("[ISAWORD] null: ");
        let list = human_friendly_list_formatter(nulls.as_slice(), "and");
        line.append(list.as_str());
        proof { lemma_string_views_push(lines@, line); }
        lines.push(line);
    }
    assert(string_views(lines@) =~= first_s + counts_s + missing_s + unknown_s);
    let blank = String::new();
    proof { lemma_string_views_push(lines@, blank); }
    lines.push(blank);
    let msg = result_message(word, results);
    proof { lemma_string_views_push(lines@, msg); }
    lines.push(msg);
    assert(string_views(lines@) =~= spec_lines);
    lines
}

/// The report lines about `word`: the dictionaries that have it, the counts
/// of professional and community ones, those that do not, those that could
/// not tell (each named by its coloured label), a blank line and the closing
/// message.
pub fn report_lines(word: &str, results: &[CheckerResult]) -> (lines: Vec<String>)
    ensures
        exists|labels: Seq<Seq<char>>|
            #![trigger report_spec(word@, results@, labels)]
            {
            &&& labels.len() == results@.len()
            &&& forall|j: int|
                0 <= j < labels.len() ==> colored_label(
                    #[trigger] labels[j],
                    results@[j].name@,
                    results@[j].result,
                )
            &&& string_views(lines@) == report_spec(word@, results@, labels)
        },
{
    let mut labels: Vec<String> = Vec::new();
    let mut i: usize = 0;
    while i < results.len()
        invariant
            i <= results.len(),
            labels.len() == i,
            forall|j: int|
                0 <= j < i ==> colored_label(
                    #[trigger] string_views(labels@)[j],
                    results@[j].name@,
                    results@[j].result,
                ),
        decreases results.len() - i,
    {
        let label = format_dict_colored(results[i].name, results[i].result);
        proof { lemma_string_views_push(labels@, label); }
        labels.push(label);
        i = i + 1;
    }
    let lines = report_lines_with_labels(word, results, &labels);
    assert(string_views(labels@).len() == results@.len());
    lines
}

/// The lines printed for a check of `word` in a single dictionary: which
/// dictionary is checked, then its coloured label.
pub fn single_report_lines(word: &str, result: &CheckerResult) -> (lines: Vec<String>)
    ensures
        lines@.len() == 2,
        lines@[0]@ == "[ISAWORD] Checking '"@ + word@ + "' in "@ + result.name@,
        colored_label(lines@[1]@, result.name@, result.result),
{
    let mut head = String::from_str("[ISAWORD] Checking '");
    head.append(word);
    head.append("' in ");
    head.append(result.name);
    let label = format_dict_colored(result.name, result.result);
    let mut lines: Vec<String> = Vec::new();
    lines.push(head);
    lines.push(label);
    lines
}

/// Whether `l` lists the labels (parallel to `rs`) of exactly the results
/// whose outcome is `want`, in their order.
pub open spec fn labels_picked(rs: Seq<CheckerResult>, labels: Seq<Seq<char>>, want: Option<bool>, l: Seq<Seq<char>>) -> bool {
    exists|idx: Seq<int>|
        {
            &&& idx.len() == l.len()
            &&& forall|k: int|
                0 <= k < idx.len() ==> 0 <= #[trigger] idx[k] < rs.len() && rs[idx[k]].result == want
                    && l[k] == labels[idx[k]]
            &&& forall|k1: int, k2: int| 0 <= k1 < k2 < idx.len() ==> #[trigger] idx[k1] < #[trigger] idx[k2]
            &&& forall|j: int|
                0 <= j < rs.len() && #[trigger] rs[j].result == want ==> exists|k: int|
                    0 <= k < idx.len() && #[trigger] idx[k] == j
        }
}

/// The labels kept for an outcome are those of exactly the results with
/// that outcome, in order.
pub proof fn lemma_labels_with_outcome_picked(rs: Seq<CheckerResult>, labels: Seq<Seq<char>>, want: Option<bool>)
    requires
        labels.len() == rs.len(),
    ensures
        labels_picked(rs, labels, want, labels_with_outcome(rs, labels, want)),
    decreases rs.len(),
{
    let l = labels_with_outcome(rs, labels, want);
    if rs.len() == 0 {
        let idx = Seq::<int>::empty();
        assert(idx.len() == l.len());
    } else {
        let rs0 = rs.drop_last();
        let lb0 = labels.drop_last();
        let n = rs.len() - 1;
        lemma_labels_with_outcome_picked(rs0, lb0, want);
        let l0 = labels_with_outcome(rs0, lb0, want);
        let idx0 = choose|idx: Seq<int>|
            {
                &&& idx.len() == l0.len()
                &&& forall|k: int|
                    0 <= k < idx.len() ==> 0 <= #[trigger] idx[k] < rs0.len() && rs0[idx[k]].result == want
                        && l0[k] == lb0[idx[k]]
                &&& forall|k1: int, k2: int| 0 <= k1 < k2 < idx.len() ==> #[trigger] idx[k1] < #[trigger] idx[k2]
                &&& forall|j: int|
                    0 <= j < rs0.len() && #[trigger] rs0[j].result == want ==> exists|k: int|
                        0 <= k < idx.len() && #[trigger] idx[k] == j
            };
        if rs.last().result == want {
            let idx = idx0.push(n);
            assert(l == l0.push(labels.last()));
            assert forall|k: int| 0 <= k < idx.len() implies 0 <= #[trigger] idx[k] < rs.len() && rs[idx[k]].result == want
                && l[k] == labels[idx[k]] by {
                if k < idx0.len() {
                    assert(idx[k] == idx0[k]);
                    assert(rs0[idx0[k]] == rs[idx0[k]]);
                    assert(lb0[idx0[k]] == labels[idx0[k]]);
                }
            }
            assert forall|k1: int, k2: int| 0 <= k1 < k2 < idx.len() implies #[trigger] idx[k1] < #[trigger] idx[k2] by {
                assert(idx[k1] == idx0[k1]);
                if k2 < idx0.len() {
                    assert(idx[k2] == idx0[k2]);
                }
            }
            assert forall|j: int| 0 <= j < rs.len() && #[trigger] rs[j].result == want implies exists|k: int|
                0 <= k < idx.len() && #[trigger] idx[k] == j by {
                if j < n {
                    assert(rs0[j] == rs[j]);
                    let k = choose|k: int| 0 <= k < idx0.len() && #[trigger] idx0[k] == j;
                    assert(idx[k] == j);
                } else {
                    assert(idx[idx0.len() as int] == j);
                }
            }
        } else {
            let idx = idx0;
            assert(l == l0);
            assert forall|k: int| 0 <= k < idx.len() implies 0 <= #[trigger] idx[k] < rs.len() && rs[idx[k]].result == want
                && l[k] == labels[idx[k]] by {
                assert(rs0[idx0[k]] == rs[idx0[k]]);
                assert(lb0[idx0[k]] == labels[idx0[k]]);
            }
            assert forall|j: int| 0 <= j < rs.len() && #[trigger] rs[j].result == want implies exists|k: int|
                0 <= k < idx.len() && #[trigger] idx[k] == j by {
                if j < n {
                    assert(rs0[j] == rs[j]);
                } else {
                    assert(rs[j] == rs.last());
                }
            }
        }
    }
}

/// There are results with an outcome exactly when some result has it.
pub proof fn lemma_with_outcome_nonempty(rs: Seq<CheckerResult>, want: Option<bool>)
    ensures
        with_outcome(rs, want).len() > 0 <==> exists|j: int| 0 <= j < rs.len() && #[trigger] rs[j].result == want,
    decreases rs.len(),
{
    if rs.len() > 0 {
        lemma_with_outcome_nonempty(rs.drop_last(), want);
        if exists|j: int| 0 <= j < rs.drop_last().len() && #[trigger] rs.drop_last()[j].result == want {
            let j = choose|j: int| 0 <= j < rs.drop_last().len() && #[trigger] rs.drop_last()[j].result == want;
            assert(rs[j] == rs.drop_last()[j]);
        }
        if exists|j: int| 0 <= j < rs.len() && #[trigger] rs[j].result == want {
            let j = choose|j: int| 0 <= j < rs.len() && #[trigger] rs[j].result == want;
            if j < rs.len() - 1 {
                assert(rs.drop_last()[j] == rs[j]);
            }
        }
    }
}

/// The first report line names, with the conjunction `and`, the labels of
/// exactly the results that found the word, in order; when none did it
/// says so.
pub proof fn lemma_report_in_line(word: Seq<char>, rs: Seq<CheckerResult>, labels: Seq<Seq<char>>)
    requires
        labels.len() == rs.len(),
    ensures
        (exists|j: int| 0 <= j < rs.len() && #[trigger] rs[j].result == Some(true)) ==> exists|l: Seq<Seq<char>>|
            labels_picked(rs, labels, Some(true), l) && #[trigger] report_spec(word, rs, labels)[0]
                == "[ISAWORD] in: "@ + friendly_list(l, "and"@),
        (forall|j: int| 0 <= j < rs.len() ==> #[trigger] rs[j].result != Some(true))
            ==> report_spec(word, rs, labels)[0] == "[ISAWORD] in: none"@,
{
    lemma_with_outcome_nonempty(rs, Some(true));
    lemma_labels_with_outcome_picked(rs, labels, Some(true));
    if exists|j: int| 0 <= j < rs.len() && #[trigger] rs[j].result == Some(true) {
        let l = labels_with_outcome(rs, labels, Some(true));
        assert(report_spec(word, rs, labels)[0] == "[ISAWORD] in: "@ + friendly_list(l, "and"@));
    }
}

/// The closing message about `word` when no dictionary found it, and when
/// every dictionary (of at least one) did.
pub proof fn lemma_message_extremes(word: Seq<char>, rs: Seq<CheckerResult>)
    ensures
        (forall|j: int| 0 <= j < rs.len() ==> #[trigger] rs[j].result != Some(true))
            ==> message_spec(word, rs) == "No sign of '"@ + word + "' in any dictionary I checked!"@,
        rs.len() > 0 && (forall|j: int| 0 <= j < rs.len() ==> #[trigger] rs[j].result == Some(true))
            ==> message_spec(word, rs) == "'"@ + word + "' is in every dictionary I checked!"@,
    decreases rs.len(),
{
    lemma_with_outcome_nonempty(rs, Some(true));
    lemma_outcomes_partition(rs);
    lemma_with_outcome_nonempty(rs, Some(false));
    lemma_with_outcome_nonempty(rs, None);
    if rs.len() > 0 && (forall|j: int| 0 <= j < rs.len() ==> #[trigger] rs[j].result == Some(true)) {
        assert(rs[0].result == Some(true));
    }
}

} // verus!
