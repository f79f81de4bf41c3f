//! The text keys under which tasks and submissions are stored: the ids in
//! decimal, separated by commas ("story,task" and "story,task,submission").
use vstd::prelude::*;

use crate::text::{
    decimal, join_commas, lemma_decimal_canonical, lemma_split_commas, parse_decimal,
    push_char, push_decimal, split_commas, split_commas_exec,
};

verus! {

/// The key text of a task.
pub open spec fn task_key_text(k: (u64, u64)) -> Seq<char> {
    decimal(k.0 as nat) + seq![','] + decimal(k.1 as nat)
}

/// The key text of a submission.
pub open spec fn submit_key_text(k: (u64, u64, u64)) -> Seq<char> {
    decimal(k.0 as nat) + seq![','] + decimal(k.1 as nat) + seq![','] + decimal(k.2 as nat)
}

/// Builds the key text of the task `task_id` of the story `story_id`.
pub fn task_key(story_id: u64, task_id: u64) -> (s: String)
    ensures
        s@ == task_key_text((story_id, task_id)),
{
    let mut s = String::new();
    push_decimal(&mut s, story_id);
    push_char(&mut s, ',');
    push_decimal(&mut s, task_id);
    assert(s@ =~= task_key_text((story_id, task_id)));
    s
}

/// Builds the key text of the submission `submit_id` to that task.
pub fn submit_key(story_id: u64, task_id: u64, submit_id: u64) -> (s: String)
    ensures
        s@ == submit_key_text((story_id, task_id, submit_id)),
{
    let mut s = String::new();
    push_decimal(&mut s, story_id);
    push_char(&mut s, ',');
    push_decimal(&mut s, task_id);
    push_char(&mut s, ',');
    push_decimal(&mut s, submit_id);
    assert(s@ =~= submit_key_text((story_id, task_id, submit_id)));
    s
}

/// Appending comma-free text to a text extends its last piece.
proof fn lemma_split_append(p: Seq<char>, y: Seq<char>)
    requires
        !y.contains(','),
    ensures
        split_commas(p).len() >= 1,
        split_commas(p + y) == split_commas(p).update(
            split_commas(p).len() - 1,
            split_commas(p).last() + y,
        ),
    decreases y.len(),
{
    lemma_split_commas(p);
    if y.len() == 0 {
        assert(p + y =~= p);
        assert(split_commas(p).last() + y =~= split_commas(p).last());
        assert(split_commas(p).update(split_commas(p).len() - 1, split_commas(p).last()) =~= split_commas(p));
    } else {
        let y1 = y.drop_last();
        let c = y.last();
        assert(!y1.contains(',')) by {
            if y1.contains(',') {
                let j = choose|j: int| 0 <= j < y1.len() && y1[j] == ',';
                assert(y[j] == ',');
            }
        }
        assert(c != ',') by {
            assert(y[y.len() - 1] == c);
        }
        lemma_split_append(p, y1);
        assert((p + y).drop_last() =~= p + y1);
        assert((p + y).last() == c);
        lemma_split_commas(p + y1);
        let sp = split_commas(p);
        let prev = split_commas(p + y1);
        assert(prev == sp.update(sp.len() - 1, sp.last() + y1));
        assert(prev.len() == sp.len());
        assert(prev.last() == sp.last() + y1);
        assert(split_commas(p + y) == prev.update(prev.len() - 1, prev.last().push(c)));
        assert(prev.last().push(c) =~= sp.last() + y);
        assert(split_commas(p + y) =~= split_commas(p).update(
            split_commas(p).len() - 1,
            split_commas(p).last() + y,
        ));
    }
}

/// Two comma-free texts joined by a comma split back into the two.
proof fn lemma_split_pair(x: Seq<char>, y: Seq<char>)
    requires
        !x.contains(','),
        !y.contains(','),
    ensures
        split_commas(x + seq![','] + y) == seq![x, y],
{
    lemma_split_append(Seq::empty(), x);
    assert(Seq::<char>::empty() + x =~= x);
    assert(split_commas(Seq::<char>::empty()) =~= seq![Seq::<char>::empty()]);
    assert(split_commas(x) =~= seq![x]);
    let xc = x + seq![','];
    assert(xc.drop_last() =~= x);
    assert(split_commas(xc) =~= seq![x, Seq::<char>::empty()]);
    lemma_split_append(xc, y);
    assert(split_commas(xc + y) =~= seq![x, y]);
}

/// Three comma-free texts joined by commas split back into the three.
proof fn lemma_split_triple(x: Seq<char>, y: Seq<char>, z: Seq<char>)
    requires
        !x.contains(','),
        !y.contains(','),
        !z.contains(','),
    ensures
        split_commas(x + seq![','] + y + seq![','] + z) == seq![x, y, z],
{
    lemma_split_pair(x, y);
    let xy = x + seq![','] + y;
    let xyc = xy + seq![','];
    assert(xyc.drop_last() =~= xy);
    assert(split_commas(xyc) =~= seq![x, y, Seq::<char>::empty()]);
    lemma_split_append(xyc, z);
    assert(split_commas(xyc + z) =~= seq![x, y, z]);
}

/// Reads a task key: only the key text of some task is accepted, and then
/// its ids come back.
pub fn parse_task_key(s: &str) -> (r: Option<(u64, u64)>)
    ensures
        match r {
            Some(k) => task_key_text(k) == s@,
            None => forall|k: (u64, u64)| task_key_text(k) != s@,
        },
{
    let pieces = split_commas_exec(s);
    proof {
        lemma_split_commas(s@);
    }
    let ghost matches_key = exists|k: (u64, u64)| task_key_text(k) == s@;
    proof {
        if matches_key {
            let k = choose|k: (u64, u64)| task_key_text(k) == s@;
            lemma_decimal_canonical(k.0 as nat);
            lemma_decimal_canonical(k.1 as nat);
            lemma_split_pair(decimal(k.0 as nat), decimal(k.1 as nat));
        }
    }
    if pieces.len() != 2 {
        return None;
    }
    let a = match parse_decimal(pieces[0].as_str()) {
        Some(a) => a,
        None => {
            return None;
        },
    };
    let b = match parse_decimal(pieces[1].as_str()) {
        Some(b) => b,
        None => {
            return None;
        },
    };
    proof {
        let ps = split_commas(s@);
        assert(ps.drop_last() =~= seq![ps[0]]);
        assert(join_commas(ps) == join_commas(ps.drop_last()) + seq![','] + ps.last());
        assert(task_key_text((a, b)) =~= s@);
    }
    Some((a, b))
}

/// Reads a submission key: only the key text of some submission is
/// accepted, and then its ids come back.
pub fn parse_submit_key(s: &str) -> (r: Option<(u64, u64, u64)>)
    ensures
        match r {
            Some(k) => submit_key_text(k) == s@,
            None => forall|k: (u64, u64, u64)| submit_key_text(k) != s@,
        },
{
    let pieces = split_commas_exec(s);
    proof {
        lemma_split_commas(s@);
    }
    let ghost matches_key = exists|k: (u64, u64, u64)| submit_key_text(k) == s@;
    proof {
        if matches_key {
            let k = choose|k: (u64, u64, u64)| submit_key_text(k) == s@;
            lemma_decimal_canonical(k.0 as nat);
            lemma_decimal_canonical(k.1 as nat);
            lemma_decimal_canonical(k.2 as nat);
            lemma_split_triple(decimal(k.0 as nat), decimal(k.1 as nat), decimal(k.2 as nat));
        }
    }
    if pieces.len() != 3 {
        return None;
    }
    let a = match parse_decimal(pieces[0].as_str()) {
        Some(a) => a,
        None => {
            return None;
        },
    };
    let b = match parse_decimal(pieces[1].as_str()) {
        Some(b) => b,
        None => {
            return None;
        },
    };
    let c = match parse_decimal(pieces[2].as_str()) {
        Some(c) => c,
        None => {
            return None;
        },
    };
    proof {
        let ps = split_commas(s@);
        assert(ps.drop_last().drop_last() =~= seq![ps[0]]);
        assert(join_commas(ps.drop_last()) == join_commas(ps.drop_last().drop_last()) + seq![','] + ps.drop_last().last());
        assert(join_commas(ps) == join_commas(ps.drop_last()) + seq![','] + ps.last());
        assert(submit_key_text((a, b, c)) =~= s@);
    }
    Some((a, b, c))
}

/// Distinct tasks have distinct key texts, and reading a task's key text
/// gives back its ids.
pub proof fn lemma_task_key_round_trip(k: (u64, u64), j: (u64, u64))
    ensures
        task_key_text(k) == task_key_text(j) ==> k == j,
{
    if task_key_text(k) == task_key_text(j) {
        lemma_decimal_canonical(k.0 as nat);
        lemma_decimal_canonical(k.1 as nat);
        lemma_decimal_canonical(j.0 as nat);
        lemma_decimal_canonical(j.1 as nat);
        lemma_split_pair(decimal(k.0 as nat), decimal(k.1 as nat));
        lemma_split_pair(decimal(j.0 as nat), decimal(j.1 as nat));
        assert(decimal(k.0 as nat) == decimal(j.0 as nat));
        assert(decimal(k.1 as nat) == decimal(j.1 as nat));
    }
}

/// Distinct submissions have distinct key texts.
pub proof fn lemma_submit_key_round_trip(k: (u64, u64, u64), j: (u64, u64, u64))
    ensures
        submit_key_text(k) == submit_key_text(j) ==> k == j,
{
    if submit_key_text(k) == submit_key_text(j) {
        lemma_decimal_canonical(k.0 as nat);
        lemma_decimal_canonical(k.1 as nat);
        lemma_decimal_canonical(k.2 as nat);
        lemma_decimal_canonical(j.0 as nat);
        lemma_decimal_canonical(j.1 as nat);
        lemma_decimal_canonical(j.2 as nat);
        lemma_split_triple(decimal(k.0 as nat), decimal(k.1 as nat), decimal(k.2 as nat));
        lemma_split_triple(decimal(j.0 as nat), decimal(j.1 as nat), decimal(j.2 as nat));
        assert(decimal(k.0 as nat) == decimal(j.0 as nat));
        assert(decimal(k.1 as nat) == decimal(j.1 as nat));
        assert(decimal(k.2 as nat) == decimal(j.2 as nat));
    }
}

} // verus!
