//! Pods: their listing, what a get request on a pod path lists, and the
//! choice of an API resource by name among discovered API groups.
use vstd::prelude::*;
use crate::helper::{
    eq_ignore_ascii_case, lemma_str_less_irreflexive, lemma_str_less_total,
    lemma_eq_ignore_ascii_case_letters, lemma_str_less_transitive, normal_components,
    same_ignoring_ascii_case, path_components, spec_eq_ignore_ascii_case,
    str_less, str_lt, string_views,
};
use crate::iterators::K8sObjectsIterator;

verus! {

/// A listing of the pods of a namespace.
pub type PodsIterator = K8sObjectsIterator;

/// The context whose pods a get request on `remote_path` lists: the first
/// component of a path with more than two components; none for a shorter path.
pub open spec fn spec_pod_get_context(remote_path: Seq<char>) -> Option<Seq<char>> {
    if normal_components(remote_path).len() > 2 {
        Some(normal_components(remote_path)[0])
    } else {
        None
    }
}

/// The context whose pods a get request on `remote_path` lists, if any.
pub fn pod_get_context(remote_path: &str) -> (r: Option<String>)
    ensures
        r is None <==> spec_pod_get_context(remote_path@) is None,
        r matches Some(c) ==> spec_pod_get_context(remote_path@) == Some(c@),
{
    let components = path_components(remote_path);
    if components.len() > 2 {
        proof {
            assert(string_views(components@)[0] == components@[0]@);
        }
        Some(components[0].clone())
    } else {
        None
    }
}

/// What the plugin reads of an API resource found by discovery: its kind
/// and its plural name.
#[derive(Debug, Clone)]
pub struct ApiResourceSummary {
    pub kind: String,
    pub plural: String,
}

/// What the plugin reads of a discovered API group: its name and its
/// resources, most stable version first.
#[derive(Debug, Clone)]
pub struct ApiGroupSummary {
    pub name: String,
    pub resources: Vec<ApiResourceSummary>,
}

/// `name` names resource `j` of group `g`: it equals the kind or the plural
/// name of the resource, ignoring ASCII case.
pub open spec fn names_resource(groups: Seq<ApiGroupSummary>, name: Seq<char>, g: int, j: int) -> bool {
    &&& 0 <= g < groups.len()
    &&& 0 <= j < groups[g].resources@.len()
    &&& (spec_eq_ignore_ascii_case(name, groups[g].resources@[j].kind@) || spec_eq_ignore_ascii_case(
        name,
        groups[g].resources@[j].plural@,
    ))
}

/// Candidate `(g1, j1)` comes before `(g2, j2)` when groups are taken in
/// order and the resources of each group in order.
pub open spec fn candidate_before(g1: int, j1: int, g2: int, j2: int) -> bool {
    g1 < g2 || (g1 == g2 && j1 < j2)
}

/// `(g, j)` is the choice among the resources that `name` names: the first
/// of those whose group name is least.
pub open spec fn is_resolved(groups: Seq<ApiGroupSummary>, name: Seq<char>, g: int, j: int) -> bool {
    &&& names_resource(groups, name, g, j)
    &&& forall|g2: int, j2: int|
        #[trigger] names_resource(groups, name, g2, j2) ==> !str_less(groups[g2].name@, groups[g].name@)
    &&& forall|g2: int, j2: int|
        #[trigger] names_resource(groups, name, g2, j2) && candidate_before(g2, j2, g, j) ==> str_less(
            groups[g].name@,
            groups[g2].name@,
        )
}

/// `(g, j)` is the choice among the candidates before `(gl, jl)`.
pub open spec fn is_resolved_before(
    groups: Seq<ApiGroupSummary>,
    name: Seq<char>,
    g: int,
    j: int,
    gl: int,
    jl: int,
) -> bool {
    &&& names_resource(groups, name, g, j)
    &&& candidate_before(g, j, gl, jl)
    &&& forall|g2: int, j2: int|
        #[trigger] names_resource(groups, name, g2, j2) && candidate_before(g2, j2, gl, jl)
            ==> !str_less(groups[g2].name@, groups[g].name@)
    &&& forall|g2: int, j2: int|
        #[trigger] names_resource(groups, name, g2, j2) && candidate_before(g2, j2, g, j) ==> str_less(
            groups[g].name@,
            groups[g2].name@,
        )
}

/// Finds the API resource that `name` names, as kubectl prefers: among the
/// resources of all groups whose kind or plural name equals `name` ignoring
/// ASCII case, the first of those in the group with the least name. Returns
/// the index of the group and of the resource within it.
pub fn resolve_api_resource(groups: &Vec<ApiGroupSummary>, name: &str) -> (r: Option<(usize, usize)>)
    ensures
        r is None <==> !(exists|g: int, j: int| names_resource(groups@, name@, g, j)),
        r matches Some(p) ==> is_resolved(groups@, name@, p.0 as int, p.1 as int),
{
    let mut best: Option<(usize, usize)> = None;
    let mut g: usize = 0;
    while g < groups.len()
        invariant
            g <= groups@.len(),
            best is None <==> !(exists|g2: int, j2: int|
                names_resource(groups@, name@, g2, j2) && candidate_before(g2, j2, g as int, 0)),
            best matches Some(p) ==> is_resolved_before(groups@, name@, p.0 as int, p.1 as int, g as int, 0),
        decreases groups@.len() - g,
    {
        let group = &groups[g];
        let mut j: usize = 0;
        while j < group.resources.len()
            invariant
                g < groups@.len(),
                *group == groups@[g as int],
                j <= group.resources@.len(),
                best is None <==> !(exists|g2: int, j2: int|
                    names_resource(groups@, name@, g2, j2) && candidate_before(g2, j2, g as int, j as int)),
                best matches Some(p) ==> is_resolved_before(
                    groups@,
                    name@,
                    p.0 as int,
                    p.1 as int,
                    g as int,
                    j as int,
                ),
            decreases group.resources@.len() - j,
        {
            let res = &group.resources[j];
            let hit = eq_ignore_ascii_case(name, res.kind.as_str()) || eq_ignore_ascii_case(
                name,
                res.plural.as_str(),
            );
            assert(hit == names_resource(groups@, name@, g as int, j as int));
            if hit {
                let replace = match best {
                    None => true,
                    Some(p) => str_lt(group.name.as_str(), groups[p.0].name.as_str()),
                };
                let ghost old_best = best;
                if replace {
                    proof {
                        let gn = groups@[g as int].name@;
                        if let Some(p) = old_best {
                            let bn = groups@[p.0 as int].name@;
                            assert forall|g2: int, j2: int|
                                #[trigger] names_resource(groups@, name@, g2, j2) && candidate_before(
                                    g2,
                                    j2,
                                    g as int,
                                    j as int,
                                ) implies str_less(gn, groups@[g2].name@) by {
                                let n2 = groups@[g2].name@;
                                assert(!str_less(n2, bn));
                                if n2 == bn {
                                } else {
                                    lemma_str_less_total(n2, bn);
                                    lemma_str_less_transitive(gn, bn, n2);
                                }
                            }
                            assert forall|g2: int, j2: int|
                                #[trigger] names_resource(groups@, name@, g2, j2) && candidate_before(
                                    g2,
                                    j2,
                                    g as int,
                                    j as int + 1,
                                ) implies !str_less(groups@[g2].name@, gn) by {
                                let n2 = groups@[g2].name@;
                                if g2 == g && j2 == j {
                                    lemma_str_less_irreflexive(gn);
                                } else {
                                    assert(!str_less(n2, bn));
                                    if str_less(n2, gn) {
                                        lemma_str_less_transitive(n2, gn, bn);
                                    }
                                }
                            }
                        } else {
                            assert forall|g2: int, j2: int|
                                #[trigger] names_resource(groups@, name@, g2, j2) && candidate_before(
                                    g2,
                                    j2,
                                    g as int,
                                    j as int + 1,
                                ) implies !str_less(groups@[g2].name@, gn) by {
                                if g2 == g && j2 == j {
                                    lemma_str_less_irreflexive(gn);
                                } else {
                                    assert(!(names_resource(groups@, name@, g2, j2) && candidate_before(
                                        g2,
                                        j2,
                                        g as int,
                                        j as int,
                                    )));
                                }
                            }
                        }
                    }
                    best = Some((g, j));
                } else {
                    proof {
                        let p = old_best.unwrap();
                        let bn = groups@[p.0 as int].name@;
                        let gn = groups@[g as int].name@;
                        assert forall|g2: int, j2: int|
                            #[trigger] names_resource(groups@, name@, g2, j2) && candidate_before(
                                g2,
                                j2,
                                g as int,
                                j as int + 1,
                            ) implies !str_less(groups@[g2].name@, bn) by {
                            if g2 == g && j2 == j {
                            } else {
                                assert(candidate_before(g2, j2, g as int, j as int));
                            }
                        }
                    }
                }
            } else {
                proof {
                    if let Some(p) = best {
                        assert forall|g2: int, j2: int|
                            #[trigger] names_resource(groups@, name@, g2, j2) && candidate_before(
                                g2,
                                j2,
                                g as int,
                                j as int + 1,
                            ) implies !str_less(groups@[g2].name@, groups@[p.0 as int].name@) by {
                            assert(candidate_before(g2, j2, g as int, j as int));
                        }
                    }
                }
            }
            proof {
                match best {
                    Some(p) => {
                        assert(names_resource(groups@, name@, p.0 as int, p.1 as int) && candidate_before(
                            p.0 as int,
                            p.1 as int,
                            g as int,
                            j as int + 1,
                        ));
                    },
                    None => {
                        assert forall|g2: int, j2: int|
                            #[trigger] names_resource(groups@, name@, g2, j2) implies !candidate_before(
                                g2,
                                j2,
                                g as int,
                                j as int + 1,
                            ) by {
                            if candidate_before(g2, j2, g as int, j as int + 1) && !(g2 == g && j2 == j) {
                                assert(candidate_before(g2, j2, g as int, j as int));
                            }
                        }
                    },
                }
            }
            j = j + 1;
        }
        proof {
            if let Some(p) = best {
                assert(names_resource(groups@, name@, p.0 as int, p.1 as int) && candidate_before(
                    p.0 as int,
                    p.1 as int,
                    g as int + 1,
                    0,
                ));
                assert forall|g2: int, j2: int|
                    #[trigger] names_resource(groups@, name@, g2, j2) && candidate_before(
                        g2,
                        j2,
                        g as int + 1,
                        0,
                    ) implies !str_less(groups@[g2].name@, groups@[p.0 as int].name@) by {
                    assert(candidate_before(g2, j2, g as int, j as int));
                }
            }
            if best is None {
                assert forall|g2: int, j2: int|
                    #[trigger] names_resource(groups@, name@, g2, j2) implies !candidate_before(
                        g2,
                        j2,
                        g as int + 1,
                        0,
                    ) by {
                    if candidate_before(g2, j2, g as int + 1, 0) {
                        assert(candidate_before(g2, j2, g as int, j as int));
                    }
                }
            }
        }
        g = g + 1;
    }
    proof {
        if let Some(p) = best {
            assert forall|g2: int, j2: int|
                #[trigger] names_resource(groups@, name@, g2, j2) implies !str_less(
                    groups@[g2].name@,
                    groups@[p.0 as int].name@,
                ) by {
                assert(candidate_before(g2, j2, g as int, 0));
            }
        }
        if best is None {
            assert forall|g2: int, j2: int|
                #[trigger] names_resource(groups@, name@, g2, j2) implies false by {
                assert(candidate_before(g2, j2, g as int, 0));
            }
        }
    }
    best
}

/// A name whose characters are those of a discovered resource's kind or
/// plural name up to the case of ASCII letters names that resource, so
/// `resolve_api_resource` finds a resource for it.
pub proof fn lemma_case_variant_names_resource(
    groups: Seq<ApiGroupSummary>,
    name: Seq<char>,
    g: int,
    j: int,
)
    requires
        0 <= g < groups.len(),
        0 <= j < groups[g].resources@.len(),
        ({
            let kind = groups[g].resources@[j].kind@;
            let plural = groups[g].resources@[j].plural@;
            ||| (name.len() == kind.len() && forall|i: int|
                0 <= i < name.len() ==> same_ignoring_ascii_case(#[trigger] name[i], kind[i]))
            ||| (name.len() == plural.len() && forall|i: int|
                0 <= i < name.len() ==> same_ignoring_ascii_case(#[trigger] name[i], plural[i]))
        }),
    ensures
        names_resource(groups, name, g, j),
        exists|g2: int, j2: int| #[trigger] names_resource(groups, name, g2, j2),
{
    lemma_eq_ignore_ascii_case_letters(name, groups[g].resources@[j].kind@);
    lemma_eq_ignore_ascii_case_letters(name, groups[g].resources@[j].plural@);
    assert(names_resource(groups, name, g, j));
}

} // verus!
