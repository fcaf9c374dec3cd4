use vstd::prelude::*;
use crate::assembly::{all_resolvable, resolvable};
use crate::constraints::base::Constraint;
use crate::error::SolverError;
use crate::geometry::{EntityMap, GeometrySystem};
use crate::parameter_system::{EntityRecord, EntityType, ParameterManager, ParametricEntity};

verus! {

/// Whether the record `rec` of the manager stands for `entity`, registered
/// under `key` as a `kind`: the record names it, and the entity's slice of
/// the parameter vector and of the fixed mask holds the entity's values and
/// flags.
pub open spec fn mirrors<S: Copy, T: ParametricEntity<S>>(
    pm: &ParameterManager<S>,
    rec: EntityRecord,
    key: Seq<char>,
    kind: EntityType,
    entity: T,
) -> bool {
    &&& rec.id == key
    &&& rec.kind == kind
    &&& rec.count == entity.parameters().len()
    &&& 0 <= rec.start
    &&& rec.start + rec.count <= pm.len()
    &&& pm.values().subrange(rec.start, rec.start + rec.count) == entity.parameters()
    &&& forall|k: int| 0 <= k < rec.count ==> #[trigger] pm.mask()[rec.start + k] == entity.fixed_at(k)
    &&& forall|k: int|
        0 <= k < rec.count ==> (#[trigger] pm.infos()[rec.start + k]).name@ == entity.names()[k]
}

/// Whether `later` holds everything that `earlier` holds, where `earlier`
/// holds it: the same records, values and flags, and perhaps more after them.
pub open spec fn extends<S: Copy>(later: &ParameterManager<S>, earlier: &ParameterManager<S>) -> bool {
    &&& earlier.records().len() <= later.records().len()
    &&& earlier.len() <= later.len()
    &&& later.records().subrange(0, earlier.records().len() as int) == earlier.records()
    &&& later.values().subrange(0, earlier.len() as int) == earlier.values()
    &&& later.infos().subrange(0, earlier.len() as int) == earlier.infos()
}

/// What a record mirrors in a manager, it mirrors in every manager that
/// extends it.
pub proof fn lemma_mirrors_extends<S: Copy, T: ParametricEntity<S>>(
    later: &ParameterManager<S>,
    earlier: &ParameterManager<S>,
    rec: EntityRecord,
    key: Seq<char>,
    kind: EntityType,
    entity: T,
)
    requires
        later.wf(),
        earlier.wf(),
        extends(later, earlier),
        mirrors(earlier, rec, key, kind, entity),
    ensures
        mirrors(later, rec, key, kind, entity),
{
    let a = rec.start;
    let b = rec.start + rec.count;
    let prefix = later.values().subrange(0, earlier.len() as int);
    assert(later.values().subrange(a, b) =~= prefix.subrange(a, b));
    assert forall|k: int| 0 <= k < rec.count implies #[trigger] later.mask()[rec.start + k]
        == entity.fixed_at(k) by {
        assert(later.infos().subrange(0, earlier.len() as int)[rec.start + k] == earlier.infos()[rec.start
            + k]);
        assert(earlier.mask()[rec.start + k] == entity.fixed_at(k));
    }
    assert forall|k: int| 0 <= k < rec.count implies (#[trigger] later.infos()[rec.start + k]).name@
        == entity.names()[k] by {
        assert(later.infos().subrange(0, earlier.len() as int)[rec.start + k] == earlier.infos()[rec.start
            + k]);
    }
}

/// Registers every entity of a map, in the map's order, each under its key.
/// Fails with `DuplicateId` when a key is registered already.
pub fn register_all<S: Copy, T: ParametricEntity<S>>(
    pm: &mut ParameterManager<S>,
    map: &EntityMap<T>,
    kind: EntityType,
) -> (r: Result<(), SolverError>)
    requires
        old(pm).wf(),
        map.wf(),
    ensures
        final(pm).wf(),
        extends(final(pm), old(pm)),
        r is Ok <==> (old(pm).ids() + map.keys()).no_duplicates(),
        r is Err ==> r == Err::<(), SolverError>(SolverError::DuplicateId),
        r is Ok ==> {
            &&& final(pm).ids() == old(pm).ids() + map.keys()
            &&& forall|i: int|
                0 <= i < map.keys().len() ==> mirrors(
                    final(pm),
                    #[trigger] final(pm).records()[old(pm).records().len() + i],
                    map.keys()[i],
                    kind,
                    map.values()[i],
                )
        },
{
    let ghost start_ids = pm.ids();
    let ghost base = pm.records().len() as int;
    let n = map.len();
    let mut i: usize = 0;
    proof {
        assert(pm.records().subrange(0, base) =~= pm.records());
        assert(pm.values().subrange(0, pm.len() as int) =~= pm.values());
        assert(pm.infos().subrange(0, pm.len() as int) =~= pm.infos());
        assert(pm.ids() =~= start_ids + map.keys().subrange(0, 0));
    }
    while i < n
        invariant
            pm.wf(),
            map.wf(),
            extends(pm, old(pm)),
            i <= n,
            n == map.keys().len(),
            start_ids == old(pm).ids(),
            base == old(pm).records().len(),
            pm.records().len() == base + i,
            pm.ids() == start_ids + map.keys().subrange(0, i as int),
            forall|j: int|
                0 <= j < i ==> mirrors(
                    pm,
                    #[trigger] pm.records()[base + j],
                    map.keys()[j],
                    kind,
                    map.values()[j],
                ),
        decreases n - i,
    {
        let (key, entity) = map.entry(i);
        let ghost before = *pm;
        if pm.register_entity(key.clone(), kind, entity).is_err() {
            proof {
                let all = start_ids + map.keys();
                let at = before.ids().index_of(map.keys()[i as int]);
                assert(before.ids()[at] == map.keys()[i as int]);
                assert(all[at] == before.ids()[at]);
                assert(all[start_ids.len() + i] == map.keys()[i as int]);
                assert(at != start_ids.len() + i);
            }
            return Err(SolverError::DuplicateId);
        }
        proof {
            let rec = pm.records()[base + i];
            assert(pm.ids() =~= before.ids().push(map.keys()[i as int]));
            assert(pm.ids() =~= start_ids + map.keys().subrange(0, i as int + 1));
            assert(pm.values().subrange(rec.start, rec.start + rec.count) =~= entity.parameters());
            assert(extends(pm, &before)) by {
                assert(pm.records().subrange(0, before.records().len() as int) =~= before.records());
                assert(pm.values().subrange(0, before.len() as int) =~= before.values());
                assert(pm.infos().subrange(0, before.len() as int) =~= before.infos());
            }
            assert(extends(pm, old(pm))) by {
                assert(pm.records().subrange(0, base) =~= before.records().subrange(0, base));
                assert(pm.values().subrange(0, old(pm).len() as int) =~= before.values().subrange(
                    0,
                    old(pm).len() as int,
                ));
                assert(pm.infos().subrange(0, old(pm).len() as int) =~= before.infos().subrange(
                    0,
                    old(pm).len() as int,
                ));
            }
            assert forall|j: int| 0 <= j < i + 1 implies mirrors(
                pm,
                #[trigger] pm.records()[base + j],
                map.keys()[j],
                kind,
                map.values()[j],
            ) by {
                if j < i {
                    assert(pm.records()[base + j] == before.records()[base + j]);
                    lemma_mirrors_extends(
                        pm,
                        &before,
                        before.records()[base + j],
                        map.keys()[j],
                        kind,
                        map.values()[j],
                    );
                }
            }
        }
        i += 1;
    }
    proof {
        assert(map.keys().subrange(0, n as int) =~= map.keys());
    }
    Ok(())
}

/// The ids of the entities of a sketch, in the order in which a solve
/// registers them: the points, then the circles, then the arcs.
pub open spec fn entity_ids<S: Copy>(g: &GeometrySystem<S>) -> Seq<Seq<char>> {
    g.points().keys() + g.circles().keys() + g.arcs().keys()
}

/// Whether the manager holds the sketch: its records are those of the
/// points, the circles and the arcs, in this order, and each record
/// mirrors its entity.
pub open spec fn registered<S: Copy>(pm: &ParameterManager<S>, g: &GeometrySystem<S>) -> bool {
    let np = g.points().keys().len() as int;
    let nc = g.circles().keys().len() as int;
    let na = g.arcs().keys().len() as int;
    &&& pm.ids() == entity_ids(g)
    &&& pm.records().len() == np + nc + na
    &&& forall|i: int|
        0 <= i < np ==> mirrors(
            pm,
            #[trigger] pm.records()[i],
            g.points().keys()[i],
            EntityType::Point,
            g.points().values()[i],
        )
    &&& forall|i: int|
        0 <= i < nc ==> mirrors(
            pm,
            #[trigger] pm.records()[np + i],
            g.circles().keys()[i],
            EntityType::Circle,
            g.circles().values()[i],
        )
    &&& forall|i: int|
        0 <= i < na ==> mirrors(
            pm,
            #[trigger] pm.records()[np + nc + i],
            g.arcs().keys()[i],
            EntityType::Arc,
            g.arcs().values()[i],
        )
}

/// Whether every operand of every constraint names a parameter of an
/// entity of the sketch.
pub open spec fn sketch_resolves<S: Copy, C: Constraint>(g: &GeometrySystem<S>, cs: Seq<C>) -> bool {
    forall|i: int, k: int|
        0 <= i < cs.len() && 0 <= k < cs[i].operands().len() ==> g.names_parameter(
            (#[trigger] cs[i].operands()[k]).0,
            cs[i].operands()[k].1,
        )
}

/// A manager that holds a sketch resolves exactly the references that name
/// a parameter of an entity of the sketch.
pub proof fn lemma_registered_resolves<S: Copy>(
    pm: &ParameterManager<S>,
    g: &GeometrySystem<S>,
    id: Seq<char>,
    local: int,
)
    requires
        pm.wf(),
        g.wf(),
        registered(pm, g),
    ensures
        pm.global_index(id, local) is Some <==> g.names_parameter(id, local),
{
    let np = g.points().keys().len() as int;
    let nc = g.circles().keys().len() as int;
    let na = g.arcs().keys().len() as int;
    let ids = pm.ids();
    if pm.has_entity(id) {
        let j = ids.index_of(id);
        assert(pm.records()[j].id == ids[j]);
        if j < np {
            assert(g.points().keys()[j] == id);
        } else {
            if g.points().contains(id) {
                let a = g.points().keys().index_of(id);
                assert(ids[a] == id);
            }
            if j < np + nc {
                assert(mirrors(
                    pm,
                    pm.records()[np + (j - np)],
                    g.circles().keys()[j - np],
                    EntityType::Circle,
                    g.circles().values()[j - np],
                ));
                assert(g.circles().keys()[j - np] == id);
            } else {
                if g.circles().contains(id) {
                    let a = g.circles().keys().index_of(id);
                    assert(ids[np + a] == id);
                }
                assert(mirrors(
                    pm,
                    pm.records()[np + nc + (j - np - nc)],
                    g.arcs().keys()[j - np - nc],
                    EntityType::Arc,
                    g.arcs().values()[j - np - nc],
                ));
                assert(g.arcs().keys()[j - np - nc] == id);
            }
        }
    } else {
        if g.points().contains(id) {
            let a = g.points().keys().index_of(id);
            assert(ids[a] == id);
        }
        if g.circles().contains(id) {
            let a = g.circles().keys().index_of(id);
            assert(ids[np + a] == id);
        }
        if g.arcs().contains(id) {
            let a = g.arcs().keys().index_of(id);
            assert(ids[np + nc + a] == id);
        }
    }
}

/// Where no id is shared between the kinds, the parameters on offer are
/// those that the sketch names.
pub proof fn lemma_offers_is_names<S: Copy>(g: &GeometrySystem<S>, id: Seq<char>, local: int)
    requires
        g.wf(),
        entity_ids(g).no_duplicates(),
    ensures
        g.offers_parameter(id, local) <==> g.names_parameter(id, local),
{
    let np = g.points().keys().len() as int;
    let nc = g.circles().keys().len() as int;
    let ids = entity_ids(g);
    if g.points().contains(id) {
        let a = g.points().keys().index_of(id);
        assert(ids[a] == id);
        if g.circles().contains(id) {
            let b = g.circles().keys().index_of(id);
            assert(ids[np + b] == id);
        }
        if g.arcs().contains(id) {
            let b = g.arcs().keys().index_of(id);
            assert(ids[np + nc + b] == id);
        }
    } else if g.circles().contains(id) {
        let a = g.circles().keys().index_of(id);
        assert(ids[np + a] == id);
        if g.arcs().contains(id) {
            let b = g.arcs().keys().index_of(id);
            assert(ids[np + nc + b] == id);
        }
    }
}

/// Whether some entity of the sketch offers each operand of each
/// constraint: what a sketch keeps of the references that were checked when
/// its constraints were added.
pub open spec fn references_hold<S: Copy, C: Constraint>(g: &GeometrySystem<S>, cs: Seq<C>) -> bool {
    forall|i: int, k: int|
        0 <= i < cs.len() && 0 <= k < cs[i].operands().len() ==> g.offers_parameter(
            (#[trigger] cs[i].operands()[k]).0,
            cs[i].operands()[k].1,
        )
}

/// Where no id is shared between the kinds, a sketch whose references hold
/// resolves its constraints.
pub proof fn lemma_references_resolve<S: Copy, C: Constraint>(g: &GeometrySystem<S>, cs: Seq<C>)
    requires
        g.wf(),
        entity_ids(g).no_duplicates(),
        references_hold(g, cs),
    ensures
        sketch_resolves(g, cs),
{
    assert forall|i: int, k: int| 0 <= i < cs.len() && 0 <= k < cs[i].operands().len() implies g.names_parameter(
        (#[trigger] cs[i].operands()[k]).0,
        cs[i].operands()[k].1,
    ) by {
        lemma_offers_is_names(g, cs[i].operands()[k].0, cs[i].operands()[k].1);
    }
}

/// A manager that holds a sketch resolves the constraints exactly when the
/// sketch does.
pub proof fn lemma_registered_resolves_all<S: Copy, C: Constraint>(
    pm: &ParameterManager<S>,
    g: &GeometrySystem<S>,
    cs: Seq<C>,
)
    requires
        pm.wf(),
        g.wf(),
        registered(pm, g),
    ensures
        all_resolvable(pm, cs) <==> sketch_resolves(g, cs),
{
    if all_resolvable(pm, cs) {
        assert forall|i: int, k: int| 0 <= i < cs.len() && 0 <= k < cs[i].operands().len() implies g.names_parameter(
            (#[trigger] cs[i].operands()[k]).0,
            cs[i].operands()[k].1,
        ) by {
            let op = cs[i].operands()[k];
            assert(resolvable(pm, cs[i].operands()));
            assert(pm.global_index(op.0, op.1) is Some);
            lemma_registered_resolves(pm, g, op.0, op.1);
        }
    }
    if sketch_resolves(g, cs) {
        assert forall|i: int| 0 <= i < cs.len() implies resolvable(pm, (#[trigger] cs[i]).operands()) by {
            let ops = cs[i].operands();
            assert forall|k: int| 0 <= k < ops.len() implies (#[trigger] pm.global_index(ops[k].0, ops[k].1))
                is Some by {
                assert(g.names_parameter(cs[i].operands()[k].0, cs[i].operands()[k].1));
                lemma_registered_resolves(pm, g, ops[k].0, ops[k].1);
            }
        }
    }
}

/// A list with a duplicate keeps it when more is appended.
pub proof fn lemma_prefix_duplicates(front: Seq<Seq<char>>, back: Seq<Seq<char>>)
    requires
        !front.no_duplicates(),
    ensures
        !(front + back).no_duplicates(),
{
    let (a, b) = choose|a: int, b: int|
        0 <= a < front.len() && 0 <= b < front.len() && a != b && front[a] == front[b];
    assert((front + back)[a] == (front + back)[b]);
}

/// Whether the manager can hand an entity its parameters back: the entity
/// is registered under `key`, with as many parameters as it has.
pub open spec fn syncable<S: Copy, T: ParametricEntity<S>>(
    pm: &ParameterManager<S>,
    key: Seq<char>,
    entity: T,
) -> bool {
    pm.has_entity(key) && entity.parameters().len() == pm.record_of(key).count
}

/// The entity with the parameter values that the manager holds for `key`.
pub open spec fn synced<S: Copy, T: ParametricEntity<S>>(pm: &ParameterManager<S>, key: Seq<char>, entity: T) -> T {
    let rec = pm.record_of(key);
    entity.with_parameters(pm.values().subrange(rec.start, rec.start + rec.count))
}

/// What `sync_all` leaves of a map. Without a failure every entity holds
/// the manager's values. With one, the entities before the first one that
/// the manager cannot serve hold them, and that one and those after it are
/// as they were.
#[verifier::opaque]
pub open spec fn sync_outcome<S: Copy, T: ParametricEntity<S>>(
    pm: &ParameterManager<S>,
    before: EntityMap<T>,
    after: EntityMap<T>,
    failure: Option<SolverError>,
) -> bool {
    let n = before.keys().len() as int;
    &&& after.keys() == before.keys()
    &&& after.values().len() == n
    &&& match failure {
        None => forall|i: int| 0 <= i < n ==> #[trigger] served(pm, before, after, i),
        Some(e) => exists|f: int| #[trigger] stopped_at(pm, before, after, e, f),
    }
}

/// Whether a sync stopped with error `e` at entity `f`, the first that the
/// manager could not serve.
pub open spec fn stopped_at<S: Copy, T: ParametricEntity<S>>(
    pm: &ParameterManager<S>,
    before: EntityMap<T>,
    after: EntityMap<T>,
    e: SolverError,
    f: int,
) -> bool {
    let n = before.keys().len() as int;
    &&& 0 <= f < n
    &&& !syncable(pm, before.keys()[f], before.values()[f])
    &&& e == if pm.has_entity(before.keys()[f]) {
        SolverError::DimensionMismatch
    } else {
        SolverError::UnknownReference
    }
    &&& forall|i: int| 0 <= i < f ==> #[trigger] served(pm, before, after, i)
    &&& forall|i: int| f <= i < n ==> #[trigger] after.values()[i] == before.values()[i]
}

/// Whether entity `i` of the map could be served and holds the manager's values.
pub open spec fn served<S: Copy, T: ParametricEntity<S>>(
    pm: &ParameterManager<S>,
    before: EntityMap<T>,
    after: EntityMap<T>,
    i: int,
) -> bool {
    &&& syncable(pm, before.keys()[i], before.values()[i])
    &&& after.values()[i] == synced(pm, before.keys()[i], before.values()[i])
}

/// The error of a result, if it is one.
pub open spec fn failure_of<A>(r: Result<A, SolverError>) -> Option<SolverError> {
    match r {
        Ok(_) => None,
        Err(e) => Some(e),
    }
}

/// Hands the entity at one position of a map its parameters back.
fn sync_at<S: Copy, T: ParametricEntity<S>>(pm: &mut ParameterManager<S>, map: &mut EntityMap<T>, i: usize) -> (r:
    Result<(), SolverError>)
    requires
        old(pm).wf(),
        old(map).wf(),
        i < old(map).keys().len(),
    ensures
        *final(pm) == *old(pm),
        final(map).wf(),
        final(map).keys() == old(map).keys(),
        r is Ok <==> syncable(old(pm), old(map).keys()[i as int], old(map).values()[i as int]),
        r is Ok ==> final(map).values() == old(map).values().update(
            i as int,
            synced(old(pm), old(map).keys()[i as int], old(map).values()[i as int]),
        ),
        r is Err ==> final(map).values() == old(map).values(),
        r is Err ==> r->Err_0 == if old(pm).has_entity(old(map).keys()[i as int]) {
            SolverError::DimensionMismatch
        } else {
            SolverError::UnknownReference
        },
{
    let key = map.entry(i).0.clone();
    let r = pm.update_entity_parameters(key.as_str(), map.value_mut(i));
    proof {
        if r is Err {
            assert(map.values() =~= old(map).values());
        }
    }
    r
}

/// Hands every entity of a map its parameters back from the manager, in
/// the map's order, and stops at the first entity that the manager cannot
/// serve.
pub fn sync_all<S: Copy, T: ParametricEntity<S>>(pm: &mut ParameterManager<S>, map: &mut EntityMap<T>) -> (r:
    Result<(), SolverError>)
    requires
        old(pm).wf(),
        old(map).wf(),
    ensures
        *final(pm) == *old(pm),
        final(map).wf(),
        final(map).keys() == old(map).keys(),
        sync_outcome(old(pm), *old(map), *final(map), failure_of(r)),
{
    let n = map.len();
    let mut i: usize = 0;
    while i < n
        invariant
            *pm == *old(pm),
            pm.wf(),
            map.wf(),
            old(map).wf(),
            i <= n,
            n == old(map).keys().len(),
            map.keys() == old(map).keys(),
            map.values().len() == n,
            forall|j: int| 0 <= j < i ==> #[trigger] served(old(pm), *old(map), *map, j),
            forall|j: int| i <= j < n ==> #[trigger] map.values()[j] == old(map).values()[j],
        decreases n - i,
    {
        let ghost before = *map;
        match sync_at(pm, map, i) {
            Ok(()) => {},
            Err(e) => {
                proof {
                    reveal(sync_outcome);
                    assert forall|j: int| 0 <= j < i implies #[trigger] served(old(pm), *old(map), *map, j) by {
                        assert(served(old(pm), *old(map), before, j));
                    }
                    assert(stopped_at(old(pm), *old(map), *map, e, i as int));
                    assert(sync_outcome(old(pm), *old(map), *map, Some(e)));
                }
                return Err(e);
            },
        }
        proof {
            assert forall|j: int| 0 <= j < i + 1 implies #[trigger] served(old(pm), *old(map), *map, j) by {
                if j < i {
                    assert(served(old(pm), *old(map), before, j));
                }
            }
        }
        i += 1;
    }
    proof {
        reveal(sync_outcome);
        assert(sync_outcome(old(pm), *old(map), *map, None));
    }
    Ok(())
}

} // verus!
