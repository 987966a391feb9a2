use vstd::prelude::*;
use crate::text::{
    chars_of, decimal, decimal_text, ends_with, find, find_in, last_index, last_index_of,
    lemma_last_index_of, lemma_lines_step, line_end, lines, lines_from, matches_here,
    next_newline, slice_chars, texts, trim, trim_bounds,
};

verus! {

broadcast use vstd::string::group_string_axioms;

/// The second field of a line split at `::` (`split("::").nth(1)`).
pub open spec fn second_field(line: Seq<char>) -> Option<Seq<char>> {
    match find(line, "::"@) {
        None => None,
        Some(a) => {
            let rest = line.skip(a + 2);
            match find(rest, "::"@) {
                None => Some(rest),
                Some(b) => Some(rest.take(b)),
            }
        },
    }
}

/// The last part of a path split at `/` (`split('/').next_back()`).
pub open spec fn last_segment(path: Seq<char>) -> Seq<char> {
    path.skip(last_index_of(path, '/') + 1)
}

/// The systemd unit that a cgroup line names, where it is a scope or a service.
pub open spec fn line_unit(line: Seq<char>) -> Option<Seq<char>> {
    match second_field(line) {
        None => None,
        Some(p) => {
            let u = last_segment(p);
            if ends_with(u, ".scope"@) || ends_with(u, ".service"@) {
                Some(u)
            } else {
                None
            }
        },
    }
}

/// The unit of the first line that names one.
pub open spec fn first_unit(ls: Seq<Seq<char>>) -> Option<Seq<char>>
    decreases ls.len(),
{
    if ls.len() == 0 {
        None
    } else {
        match line_unit(ls[0]) {
            Some(u) => Some(u),
            None => first_unit(ls.drop_first()),
        }
    }
}

proof fn lemma_find_bound(hay: Seq<char>, needle: Seq<char>)
    ensures
        find(hay, needle) matches Some(k) ==> 0 <= k && k + needle.len() <= hay.len(),
{
    crate::text::lemma_find_from(hay, needle, 0);
}

/// The systemd scope or service of a process, read from the text of its
/// `/proc/<pid>/cgroup` file: the last path part of the first line whose
/// second `::` field ends in `.scope` or `.service`.
pub fn scope_from_cgroup(cgroup: &str) -> (r: Option<String>)
    ensures
        r matches Some(u) ==> first_unit(lines(cgroup@)) == Some(u@),
        r is None ==> first_unit(lines(cgroup@)) is None,
{
    let v = chars_of(cgroup);
    let sep = chars_of("::");
    let scope_suffix = chars_of(".scope");
    let service_suffix = chars_of(".service");
    let mut pos: usize = 0;
    while pos < v.len()
        invariant
            v@ == cgroup@,
            sep@ == "::"@,
            scope_suffix@ == ".scope"@,
            service_suffix@ == ".service"@,
            pos <= v@.len(),
            first_unit(lines(cgroup@)) == first_unit(lines_from(v@, pos as int)),
        decreases v@.len() - pos,
    {
        let j = next_newline(&v, pos);
        let e = line_end(&v, pos, j);
        let line = slice_chars(&v, pos, e);
        let ghost rest_lines = lines_from(v@, j + 1);
        proof {
            lemma_lines_step(v@, pos as int);
            assert(lines_from(v@, pos as int)[0] == line@);
            assert(lines_from(v@, pos as int).drop_first() =~= rest_lines);
            lemma_find_bound(line@, "::"@);
            reveal_strlit("::");
        }
        match find_in(&line, &sep) {
            Some(a) => {
                let start = a + 2;
                let rest = slice_chars(&line, start, line.len());
                proof {
                    assert(rest@ =~= line@.skip(start as int));
                    lemma_find_bound(rest@, "::"@);
                }
                let field_end = match find_in(&rest, &sep) {
                    Some(b) => b,
                    None => rest.len(),
                };
                let field = slice_chars(&rest, 0, field_end);
                proof {
                    assert(second_field(line@) == Some(field@)) by {
                        if field_end == rest@.len() {
                            assert(field@ =~= rest@);
                        } else {
                            assert(field@ =~= rest@.take(field_end as int));
                        }
                    }
                    lemma_last_index_of(field@, '/');
                }
                let seg_start = match last_index(&field, '/') {
                    Some(k) => k + 1,
                    None => 0,
                };
                let unit = slice_chars(&field, seg_start, field.len());
                proof {
                    assert(unit@ =~= last_segment(field@));
                }
                let is_scope = scope_suffix.len() <= unit.len() && matches_here(
                    &unit,
                    &scope_suffix,
                    unit.len() - scope_suffix.len(),
                );
                let is_service = service_suffix.len() <= unit.len() && matches_here(
                    &unit,
                    &service_suffix,
                    unit.len() - service_suffix.len(),
                );
                if is_scope || is_service {
                    let from = pos + start + seg_start;
                    let to = pos + start + field_end;
                    proof {
                        assert(v@.subrange(from as int, to as int) =~= unit@);
                    }
                    let s = cgroup.substring_char(from, to).to_owned();
                    return Some(s);
                }
            },
            None => {},
        }
        if j >= v.len() {
            pos = v.len();
        } else {
            pos = j + 1;
        }
    }
    None
}

/// The process ids in the output of `pgrep`: every line trimmed, without
/// empty ones and without `exclude` (the caller's own id).
pub open spec fn pid_list(ls: Seq<Seq<char>>, exclude: Seq<char>) -> Seq<Seq<char>>
    decreases ls.len(),
{
    if ls.len() == 0 {
        Seq::empty()
    } else {
        let p = trim(ls[0]);
        let rest = pid_list(ls.drop_first(), exclude);
        if p.len() > 0 && p != exclude {
            seq![p] + rest
        } else {
            rest
        }
    }
}

/// The Sober process ids that `pgrep` printed, other than `exclude`.
pub fn sober_pids(output: &str, exclude: &str) -> (pids: Vec<String>)
    ensures
        texts(pids@) == pid_list(lines(output@), exclude@),
{
    let v = chars_of(output);
    let ex = chars_of(exclude);
    let mut pids: Vec<String> = Vec::new();
    let mut pos: usize = 0;
    proof {
        assert(texts(pids@) + pid_list(lines_from(v@, 0), ex@) =~= pid_list(lines(output@), exclude@));
    }
    while pos < v.len()
        invariant
            v@ == output@,
            ex@ == exclude@,
            pos <= v@.len(),
            texts(pids@) + pid_list(lines_from(v@, pos as int), ex@) == pid_list(lines(output@), exclude@),
        decreases v@.len() - pos,
    {
        let j = next_newline(&v, pos);
        let e = line_end(&v, pos, j);
        let (lo, hi) = trim_bounds(&v, pos, e);
        let ghost line = v@.subrange(pos as int, e as int);
        let ghost rest_lines = lines_from(v@, j + 1);
        proof {
            lemma_lines_step(v@, pos as int);
            assert(lines_from(v@, pos as int)[0] == line);
            assert(lines_from(v@, pos as int).drop_first() =~= rest_lines);
        }
        let ghost p0 = texts(pids@);
        if hi > lo {
            let p = slice_chars(&v, lo, hi);
            let same = p.len() == ex.len() && matches_here(&p, &ex, 0);
            proof {
                assert(p@.subrange(0, ex@.len() as int) =~= p@ || p@.len() != ex@.len());
            }
            if !same {
                pids.push(output.substring_char(lo, hi).to_owned());
                proof {
                    assert(texts(pids@) =~= p0.push(trim(line)));
                    assert(p0.push(trim(line)) + pid_list(rest_lines, ex@) =~= p0 + (seq![trim(line)]
                        + pid_list(rest_lines, ex@)));
                }
            }
        }
        if j >= v.len() {
            pos = v.len();
        } else {
            pos = j + 1;
        }
    }
    proof {
        assert(texts(pids@) =~= texts(pids@) + pid_list(lines_from(v@, pos as int), ex@));
    }
    pids
}

/// The `CPUQuota=` property that sets a quota in percent, or clears it.
pub open spec fn quota_property(quota: Option<u32>) -> Seq<char> {
    match quota {
        Some(q) => "CPUQuota="@ + decimal(q as nat) + "%"@,
        None => "CPUQuota="@,
    }
}

pub fn cpu_quota_property(quota: Option<u32>) -> (p: String)
    ensures
        p@ == quota_property(quota),
{
    match quota {
        Some(q) => "CPUQuota=".to_owned().concat(decimal_text(q as u64).as_str()).concat("%"),
        None => "CPUQuota=".to_owned(),
    }
}

/// Every listed process id is non-empty, trimmed, and not the excluded one.
pub proof fn lemma_pids_clean(ls: Seq<Seq<char>>, exclude: Seq<char>)
    ensures
        forall|i: int|
            0 <= i < pid_list(ls, exclude).len() ==> {
                &&& (#[trigger] pid_list(ls, exclude)[i]).len() > 0
                &&& pid_list(ls, exclude)[i] != exclude
                &&& exists|j: int| 0 <= j < ls.len() && trim(ls[j]) == pid_list(ls, exclude)[i]
            },
    decreases ls.len(),
{
    if ls.len() > 0 {
        let rest = pid_list(ls.drop_first(), exclude);
        lemma_pids_clean(ls.drop_first(), exclude);
        assert forall|i: int| 0 <= i < pid_list(ls, exclude).len() implies {
            &&& (#[trigger] pid_list(ls, exclude)[i]).len() > 0
            &&& pid_list(ls, exclude)[i] != exclude
            &&& exists|j: int| 0 <= j < ls.len() && trim(ls[j]) == pid_list(ls, exclude)[i]
        } by {
            let p = trim(ls[0]);
            if p.len() > 0 && p != exclude {
                if i == 0 {
                    assert(trim(ls[0]) == pid_list(ls, exclude)[i]);
                } else {
                    assert(pid_list(ls, exclude)[i] == rest[i - 1]);
                    let j = choose|j: int| 0 <= j < ls.drop_first().len() && trim(ls.drop_first()[j]) == rest[i - 1];
                    assert(trim(ls[j + 1]) == pid_list(ls, exclude)[i]);
                }
            } else {
                assert(pid_list(ls, exclude)[i] == rest[i]);
                let j = choose|j: int| 0 <= j < ls.drop_first().len() && trim(ls.drop_first()[j]) == rest[i];
                assert(trim(ls[j + 1]) == pid_list(ls, exclude)[i]);
            }
        }
    }
}

} // verus!
