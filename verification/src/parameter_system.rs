use vstd::prelude::*;
use crate::error::SolverError;

verus! {

/// A geometric entity that contributes scalar parameters to the solver.
///
/// `S` is the scalar type. The manager only stores and copies scalars, so
/// nothing is asked of `S` beyond `Copy`.
pub trait ParametricEntity<S: Copy> {
    /// The entity's parameter values, in local order.
    spec fn parameters(&self) -> Seq<S>;

    /// The name of each parameter, in local order.
    spec fn names(&self) -> Seq<Seq<char>>;

    /// Whether the parameter at a local index is frozen. An index that names
    /// no parameter counts as frozen.
    spec fn fixed_at(&self, param_index: int) -> bool;

    /// The entity with its parameter values replaced by `params`, and
    /// nothing else changed.
    spec fn with_parameters(&self, params: Seq<S>) -> Self where Self: Sized;

    /// Replacing an entity's parameter values by themselves changes nothing.
    proof fn lemma_with_own_parameters(&self) where Self: Sized
        ensures
            self.with_parameters(self.parameters()) == *self,
    ;

    /// The current parameter values.
    fn get_parameters(&self) -> (params: Vec<S>)
        ensures
            params@ == self.parameters(),
    ;

    /// Overwrites the parameter values. Succeeds exactly when `params` has
    /// one value per parameter; otherwise the entity is left as it was.
    fn set_parameters(&mut self, params: &[S]) -> (r: Result<(), SolverError>) where Self: Sized
        ensures
            r is Ok <==> params@.len() == old(self).parameters().len(),
            r is Ok ==> *final(self) == old(self).with_parameters(params@) && final(self).parameters()
                == params@,
            r is Err ==> r == Err::<(), SolverError>(SolverError::DimensionMismatch) && *final(self)
                == *old(self),
            final(self).names() == old(self).names(),
            forall|i: int| final(self).fixed_at(i) == old(self).fixed_at(i),
    ;

    /// The names of the parameters, one per value.
    fn parameter_names(&self) -> (names: Vec<String>)
        ensures
            names@.len() == self.parameters().len(),
            self.names().len() == self.parameters().len(),
            forall|i: int| 0 <= i < names@.len() ==> (#[trigger] names@[i])@ == self.names()[i],
    ;

    /// How many parameters the entity exposes.
    fn num_parameters(&self) -> (n: usize)
        ensures
            n == self.parameters().len(),
    {
        self.get_parameters().len()
    }

    /// Whether the solver must leave the parameter at `param_index` alone.
    fn is_parameter_fixed(&self, param_index: usize) -> (fixed: bool)
        ensures
            fixed == self.fixed_at(param_index as int),
    ;
}

/// The kinds of entity that own parameters.
#[derive(Debug, Clone, Copy, PartialEq, Eq, Structural)]
pub enum EntityType {
    Point,
    Circle,
    Arc,
}

/// What the manager records about one slot of the global parameter vector.
#[derive(Debug, Clone)]
pub struct ParameterInfo {
    pub entity_id: String,
    pub entity_type: EntityType,
    /// Index within the entity's own parameter list.
    pub param_index: usize,
    /// Index in the global parameter vector.
    pub global_index: usize,
    pub name: String,
    pub is_fixed: bool,
}

/// Where one registered entity's parameters sit in the global vector.
struct EntitySlot {
    id: String,
    kind: EntityType,
    start: usize,
    count: usize,
}

/// The mathematical record of one registered entity: its id, its kind, the
/// global index of its first parameter and the number of its parameters.
pub struct EntityRecord {
    pub id: Seq<char>,
    pub kind: EntityType,
    pub start: int,
    pub count: int,
}

/// Whether `info` describes parameter `k` of the entity `rec`.
pub open spec fn describes(info: ParameterInfo, rec: EntityRecord, k: int) -> bool {
    &&& info.entity_id@ == rec.id
    &&& info.entity_type == rec.kind
    &&& info.param_index == k
    &&& info.global_index == rec.start + k
}

/// A parameter vector after a masked write: the candidate's value in every
/// free slot, the old value in every fixed one.
pub open spec fn masked<S>(values: Seq<S>, candidate: Seq<S>, mask: Seq<bool>) -> Seq<S> {
    Seq::new(
        values.len(),
        |i: int|
            if mask[i] {
                values[i]
            } else {
                candidate[i]
            },
    )
}

/// Whether entity `j + 1` starts where entity `j` ends.
pub open spec fn adjoining(recs: Seq<EntityRecord>, j: int) -> bool {
    recs[j].start + recs[j].count == recs[j + 1].start
}

/// The global parameter vector and the map from entities to their slots.
///
/// Entities are laid out in registration order, each entity's parameters in
/// local order, with no gaps: the vector is the concatenation of the
/// registered entities' parameter lists.
pub struct ParameterManager<S> {
    entities: Vec<EntitySlot>,
    parameter_info: Vec<ParameterInfo>,
    parameters: Vec<S>,
}

impl<S: Copy> ParameterManager<S> {
    /// The registered entities, in registration order.
    pub closed spec fn records(&self) -> Seq<EntityRecord> {
        Seq::new(
            self.entities@.len(),
            |j: int|
                EntityRecord {
                    id: self.entities@[j].id@,
                    kind: self.entities@[j].kind,
                    start: self.entities@[j].start as int,
                    count: self.entities@[j].count as int,
                },
        )
    }

    /// The global parameter vector.
    pub closed spec fn values(&self) -> Seq<S> {
        self.parameters@
    }

    /// The metadata of each slot of the global vector.
    pub closed spec fn infos(&self) -> Seq<ParameterInfo> {
        self.parameter_info@
    }

    /// The number of parameters.
    pub open spec fn len(&self) -> nat {
        self.values().len()
    }

    /// The registered ids, in registration order.
    pub open spec fn ids(&self) -> Seq<Seq<char>> {
        self.records().map_values(|r: EntityRecord| r.id)
    }

    /// Whether an entity with this id is registered.
    pub open spec fn has_entity(&self, id: Seq<char>) -> bool {
        self.ids().contains(id)
    }

    /// The record of a registered entity.
    pub open spec fn record_of(&self, id: Seq<char>) -> EntityRecord {
        self.records()[self.ids().index_of(id)]
    }

    /// The global index of parameter `local` of entity `id`, where there is one.
    pub open spec fn global_index(&self, id: Seq<char>, local: int) -> Option<int> {
        if self.has_entity(id) && 0 <= local < self.record_of(id).count {
            Some(self.record_of(id).start + local)
        } else {
            None
        }
    }

    /// The fixed mask: one flag per slot of the global vector.
    pub open spec fn mask(&self) -> Seq<bool> {
        self.infos().map_values(|info: ParameterInfo| info.is_fixed)
    }

    /// The manager's invariant.
    pub open spec fn wf(&self) -> bool {
        let recs = self.records();
        &&& self.ids().no_duplicates()
        &&& self.infos().len() == self.values().len()
        &&& recs.len() == 0 ==> self.values().len() == 0
        &&& recs.len() > 0 ==> recs[0].start == 0 && recs.last().start + recs.last().count
            == self.values().len()
        &&& forall|j: int| 0 <= j < recs.len() ==> 0 <= (#[trigger] recs[j]).start && 0 <= recs[j].count
        &&& forall|j: int| 0 <= j && j + 1 < recs.len() ==> #[trigger] adjoining(recs, j)
        &&& forall|j: int, l: int|
            0 <= j < l < recs.len() ==> (#[trigger] recs[j]).start + recs[j].count <= (#[trigger] recs[l]).start
        &&& forall|j: int|
            0 <= j < recs.len() ==> (#[trigger] recs[j]).start + recs[j].count <= self.values().len()
        &&& forall|j: int, k: int|
            0 <= j < recs.len() && 0 <= k < recs[j].count ==> describes(
                #[trigger] self.infos()[recs[j].start + k],
                recs[j],
                k,
            )
    }

    /// An empty manager.
    pub fn new() -> (pm: Self)
        ensures
            pm.wf(),
            pm.records() == Seq::<EntityRecord>::empty(),
            pm.values() == Seq::<S>::empty(),
            pm.infos() == Seq::<ParameterInfo>::empty(),
    {
        let pm = ParameterManager {
            entities: Vec::new(),
            parameter_info: Vec::new(),
            parameters: Vec::new(),
        };
        assert(pm.records() =~= Seq::<EntityRecord>::empty());
        pm
    }

    /// Registers an entity: appends its parameters to the global vector and
    /// records where they are. Fails, changing nothing, when the id is
    /// already registered.
    pub fn register_entity<T: ParametricEntity<S>>(
        &mut self,
        entity_id: String,
        entity_type: EntityType,
        entity: &T,
    ) -> (r: Result<(), SolverError>)
        requires
            old(self).wf(),
        ensures
            final(self).wf(),
            r is Err <==> old(self).has_entity(entity_id@),
            r is Err ==> r == Err::<(), SolverError>(SolverError::DuplicateId) && *final(self) == *old(self),
            r is Ok ==> {
                &&& final(self).records() == old(self).records().push(
                    EntityRecord {
                        id: entity_id@,
                        kind: entity_type,
                        start: old(self).len() as int,
                        count: entity.parameters().len() as int,
                    },
                )
                &&& final(self).values() == old(self).values() + entity.parameters()
                &&& final(self).infos().len() == final(self).values().len()
                &&& forall|g: int|
                    0 <= g < old(self).len() ==> #[trigger] final(self).infos()[g] == old(self).infos()[g]
                &&& forall|k: int|
                    0 <= k < entity.parameters().len() ==> {
                        let info = #[trigger] final(self).infos()[old(self).len() + k];
                        &&& info.name@ == entity.names()[k]
                        &&& info.is_fixed == entity.fixed_at(k)
                    }
            },
    {
        if self.find(&entity_id).is_some() {
            return Err(SolverError::DuplicateId);
        }
        let start = self.parameters.len();
        let entity_params = entity.get_parameters();
        let param_names = entity.parameter_names();
        let count = entity_params.len();
        let ghost rec = EntityRecord {
            id: entity_id@,
            kind: entity_type,
            start: start as int,
            count: count as int,
        };
        let mut k: usize = 0;
        while k < count
            invariant
                k <= count,
                count == entity_params@.len(),
                count == param_names@.len(),
                entity_params@ == entity.parameters(),
                entity.names().len() == count,
                forall|i: int| 0 <= i < count ==> (#[trigger] param_names@[i])@ == entity.names()[i],
                self.entities@ == old(self).entities@,
                self.parameters@ == old(self).parameters@ + entity_params@.subrange(0, k as int),
                self.parameter_info@.len() == old(self).parameter_info@.len() + k,
                old(self).parameter_info@.len() == start,
                old(self).parameters@.len() == start,
                rec.id == entity_id@ && rec.kind == entity_type && rec.start == start && rec.count == count,
                forall|g: int|
                    0 <= g < start ==> #[trigger] self.parameter_info@[g] == old(self).parameter_info@[g],
                forall|i: int|
                    0 <= i < k ==> {
                        let info = #[trigger] self.parameter_info@[start + i];
                        &&& describes(info, rec, i)
                        &&& info.name@ == entity.names()[i]
                        &&& info.is_fixed == entity.fixed_at(i)
                    },
            decreases count - k,
        {
            let global_index = self.parameters.len();
            let is_fixed = entity.is_parameter_fixed(k);
            self.parameter_info.push(
                ParameterInfo {
                    entity_id: entity_id.clone(),
                    entity_type,
                    param_index: k,
                    global_index,
                    name: param_names[k].clone(),
                    is_fixed,
                },
            );
            self.parameters.push(entity_params[k]);
            assert(self.parameters@ =~= old(self).parameters@ + entity_params@.subrange(
                0,
                k as int + 1,
            ));
            k += 1;
        }
        assert(entity_params@.subrange(0, count as int) =~= entity_params@);
        self.entities.push(EntitySlot { id: entity_id, kind: entity_type, start, count });
        proof {
            let old_recs = old(self).records();
            let recs = self.records();
            assert(recs =~= old_recs.push(rec));
            assert(self.ids() =~= old(self).ids().push(rec.id));
            assert(self.ids().no_duplicates()) by {
                assert forall|a: int, b: int|
                    0 <= a < self.ids().len() && 0 <= b < self.ids().len() && a != b implies self.ids()[a]
                    != self.ids()[b] by {
                    if a < old_recs.len() && b < old_recs.len() {
                        assert(old(self).ids()[a] != old(self).ids()[b]);
                    } else if a < old_recs.len() {
                        assert(old(self).ids().contains(old(self).ids()[a]));
                    } else {
                        assert(old(self).ids().contains(old(self).ids()[b]));
                    }
                }
            }
            assert forall|j: int| 0 <= j && j + 1 < recs.len() implies #[trigger] adjoining(recs, j) by {
                if j + 1 < old_recs.len() {
                    assert(adjoining(old_recs, j));
                }
            }
            assert forall|j: int, i: int| 0 <= j < recs.len() && 0 <= i < recs[j].count implies describes(
                #[trigger] self.infos()[recs[j].start + i],
                recs[j],
                i,
            ) by {
                if j < old_recs.len() {
                    assert(describes(old(self).infos()[old_recs[j].start + i], old_recs[j], i));
                    assert(old_recs[j].start + old_recs[j].count <= start);
                }
            }
        }
        Ok(())
    }

    /// The global index of parameter `param_index` of entity `entity_id`:
    /// `None` when the entity is not registered or has no such parameter.
    pub fn get_global_index(&self, entity_id: &str, param_index: usize) -> (r: Option<usize>)
        requires
            self.wf(),
        ensures
            match r {
                Some(g) => self.global_index(entity_id@, param_index as int) == Some(g as int) && g
                    < self.len(),
                None => self.global_index(entity_id@, param_index as int) is None,
            },
    {
        let id = entity_id.to_owned();
        match self.find(&id) {
            Some(j) => {
                if param_index < self.entities[j].count {
                    Some(self.entities[j].start + param_index)
                } else {
                    None
                }
            },
            None => None,
        }
    }

    /// All global indices of an entity, in local order; `None` when the
    /// entity is not registered.
    pub fn get_entity_indices(&self, entity_id: &str) -> (r: Option<Vec<usize>>)
        requires
            self.wf(),
        ensures
            r is Some <==> self.has_entity(entity_id@),
            r is Some ==> {
                let indices = r->Some_0@;
                &&& indices.len() == self.record_of(entity_id@).count
                &&& forall|k: int|
                    0 <= k < indices.len() ==> #[trigger] indices[k] == self.record_of(entity_id@).start
                        + k
            },
    {
        let id = entity_id.to_owned();
        match self.find(&id) {
            Some(j) => {
                let start = self.entities[j].start;
                let count = self.entities[j].count;
                let mut indices: Vec<usize> = Vec::new();
                let mut k: usize = 0;
                while k < count
                    invariant
                        k <= count,
                        start + count <= usize::MAX,
                        indices@.len() == k,
                        forall|i: int| 0 <= i < k ==> #[trigger] indices@[i] == start + i,
                    decreases count - k,
                {
                    indices.push(start + k);
                    k += 1;
                }
                Some(indices)
            },
            None => None,
        }
    }

    /// The current global parameter vector.
    pub fn get_parameters(&self) -> (params: &[S])
        ensures
            params@ == self.values(),
    {
        self.parameters.as_slice()
    }

    /// The global parameter vector, to change in place. This way round the
    /// fixed mask is meant for a caller that puts a whole vector back; a
    /// single guarded write is `set_parameter`.
    pub fn get_parameters_mut(&mut self) -> (params: &mut [S])
        requires
            old(self).wf(),
        ensures
            params@ == old(self).values(),
            final(self).values() == final(params)@,
            final(self).records() == old(self).records(),
            final(self).infos() == old(self).infos(),
    {
        self.parameters.as_mut_slice()
    }

    /// A copy of the global parameter vector, to come back to with `restore`.
    pub fn snapshot(&self) -> (params: Vec<S>)
        ensures
            params@ == self.values(),
    {
        vstd::slice::slice_to_vec(self.parameters.as_slice())
    }

    /// Puts back a whole parameter vector, fixed slots included. Fails,
    /// changing nothing, when the vector has another length.
    pub fn restore(&mut self, params: &[S]) -> (r: Result<(), SolverError>)
        requires
            old(self).wf(),
        ensures
            final(self).wf(),
            final(self).records() == old(self).records(),
            final(self).infos() == old(self).infos(),
            r is Ok <==> params@.len() == old(self).len(),
            r is Ok ==> final(self).values() == params@,
            r is Err ==> r == Err::<(), SolverError>(SolverError::DimensionMismatch)
                && final(self).values() == old(self).values(),
    {
        if params.len() != self.parameters.len() {
            return Err(SolverError::DimensionMismatch);
        }
        self.parameters = vstd::slice::slice_to_vec(params);
        Ok(())
    }

    /// Writes one parameter. Fails, changing nothing, when the slot is
    /// fixed or when there is no slot with this index.
    pub fn set_parameter(&mut self, global_index: usize, value: S) -> (r: Result<(), SolverError>)
        requires
            old(self).wf(),
        ensures
            final(self).wf(),
            final(self).records() == old(self).records(),
            final(self).infos() == old(self).infos(),
            r is Ok <==> global_index < old(self).len() && !old(self).mask()[global_index as int],
            r is Ok ==> final(self).values() == old(self).values().update(global_index as int, value),
            r is Err ==> r == Err::<(), SolverError>(SolverError::InvalidOperation)
                && final(self).values() == old(self).values(),
    {
        if global_index >= self.parameters.len() {
            return Err(SolverError::InvalidOperation);
        }
        if self.parameter_info[global_index].is_fixed {
            return Err(SolverError::InvalidOperation);
        }
        self.parameters.set(global_index, value);
        Ok(())
    }

    /// Moves every free parameter to the candidate's value and leaves every
    /// fixed one alone. Fails, changing nothing, when the candidate does not
    /// have one value per parameter.
    pub fn apply_free(&mut self, candidate: &[S]) -> (r: Result<(), SolverError>)
        requires
            old(self).wf(),
        ensures
            final(self).wf(),
            final(self).records() == old(self).records(),
            final(self).infos() == old(self).infos(),
            r is Ok <==> candidate@.len() == old(self).len(),
            r is Ok ==> final(self).values() == masked(old(self).values(), candidate@, old(self).mask()),
            r is Err ==> r == Err::<(), SolverError>(SolverError::DimensionMismatch)
                && final(self).values() == old(self).values(),
    {
        let n = self.parameters.len();
        if candidate.len() != n {
            return Err(SolverError::DimensionMismatch);
        }
        let mut i: usize = 0;
        while i < n
            invariant
                self.wf(),
                i <= n,
                n == candidate@.len(),
                n == old(self).len(),
                self.len() == n,
                self.records() == old(self).records(),
                self.infos() == old(self).infos(),
                forall|g: int|
                    0 <= g < n ==> #[trigger] self.values()[g] == (if g < i && !old(self).mask()[g] {
                        candidate@[g]
                    } else {
                        old(self).values()[g]
                    }),
            decreases n - i,
        {
            let _ = self.set_parameter(i, candidate[i]);
            i += 1;
        }
        assert(self.values() =~= masked(old(self).values(), candidate@, old(self).mask()));
        Ok(())
    }

    /// Copies an entity's slice of the global vector back into the entity.
    /// Fails, changing nothing, when the entity is not registered or when it
    /// does not have as many parameters as were registered for it.
    pub fn update_entity_parameters<T: ParametricEntity<S>>(
        &mut self,
        entity_id: &str,
        entity: &mut T,
    ) -> (r: Result<(), SolverError>)
        requires
            old(self).wf(),
        ensures
            *final(self) == *old(self),
            final(entity).names() == old(entity).names(),
            forall|i: int| final(entity).fixed_at(i) == old(entity).fixed_at(i),
            match r {
                Ok(()) => {
                    let rec = old(self).record_of(entity_id@);
                    &&& old(self).has_entity(entity_id@)
                    &&& old(entity).parameters().len() == rec.count
                    &&& final(entity).parameters() == old(self).values().subrange(
                        rec.start,
                        rec.start + rec.count,
                    )
                    &&& *final(entity) == old(entity).with_parameters(
                        old(self).values().subrange(rec.start, rec.start + rec.count),
                    )
                },
                Err(e) => {
                    &&& *final(entity) == *old(entity)
                    &&& e == SolverError::UnknownReference <==> !old(self).has_entity(entity_id@)
                    &&& e == SolverError::DimensionMismatch <==> old(self).has_entity(entity_id@)
                        && old(entity).parameters().len() != old(self).record_of(entity_id@).count
                    &&& e == SolverError::UnknownReference || e == SolverError::DimensionMismatch
                },
            },
    {
        let id = entity_id.to_owned();
        match self.find(&id) {
            Some(j) => {
                let start = self.entities[j].start;
                let count = self.entities[j].count;
                if entity.num_parameters() != count {
                    return Err(SolverError::DimensionMismatch);
                }
                let slice = vstd::slice::slice_subrange(self.parameters.as_slice(), start, start + count);
                entity.set_parameters(slice)
            },
            None => Err(SolverError::UnknownReference),
        }
    }

    /// Copies an entity's parameters into its slice of the global vector,
    /// fixed or not. Fails, changing nothing, when the entity is not
    /// registered or when it does not have as many parameters as were
    /// registered for it.
    pub fn sync_from_entity<T: ParametricEntity<S>>(&mut self, entity_id: &str, entity: &T) -> (r:
        Result<(), SolverError>)
        requires
            old(self).wf(),
        ensures
            final(self).wf(),
            final(self).records() == old(self).records(),
            final(self).infos() == old(self).infos(),
            match r {
                Ok(()) => {
                    let rec = old(self).record_of(entity_id@);
                    &&& old(self).has_entity(entity_id@)
                    &&& entity.parameters().len() == rec.count
                    &&& final(self).values() == old(self).values().subrange(0, rec.start)
                        + entity.parameters() + old(self).values().subrange(
                        rec.start + rec.count,
                        old(self).len() as int,
                    )
                },
                Err(e) => {
                    &&& final(self).values() == old(self).values()
                    &&& e == SolverError::UnknownReference <==> !old(self).has_entity(entity_id@)
                    &&& e == SolverError::DimensionMismatch <==> old(self).has_entity(entity_id@)
                        && entity.parameters().len() != old(self).record_of(entity_id@).count
                    &&& e == SolverError::UnknownReference || e == SolverError::DimensionMismatch
                },
            },
    {
        let id = entity_id.to_owned();
        match self.find(&id) {
            Some(j) => {
                let start = self.entities[j].start;
                let count = self.entities[j].count;
                let entity_params = entity.get_parameters();
                if entity_params.len() != count {
                    return Err(SolverError::DimensionMismatch);
                }
                let mut k: usize = 0;
                while k < count
                    invariant
                        k <= count,
                        count == entity_params@.len(),
                        start + count <= self.parameters@.len() <= usize::MAX,
                        self.parameters@.len() == old(self).parameters@.len(),
                        self.entities@ == old(self).entities@,
                        self.parameter_info@ == old(self).parameter_info@,
                        forall|g: int|
                            0 <= g < self.parameters@.len() ==> #[trigger] self.parameters@[g] == (if start
                                <= g < start + k {
                                entity_params@[g - start]
                            } else {
                                old(self).parameters@[g]
                            }),
                    decreases count - k,
                {
                    self.parameters.set(start + k, entity_params[k]);
                    k += 1;
                }
                assert(self.values() =~= old(self).values().subrange(0, start as int)
                    + entity.parameters() + old(self).values().subrange(
                    start + count,
                    old(self).len() as int,
                ));
                assert(self.records() =~= old(self).records());
                Ok(())
            },
            None => Err(SolverError::UnknownReference),
        }
    }

    /// The total number of parameters.
    pub fn num_parameters(&self) -> (n: usize)
        ensures
            n == self.len(),
    {
        self.parameters.len()
    }

    /// The metadata of every slot, in global order.
    pub fn get_parameter_info(&self) -> (infos: &[ParameterInfo])
        ensures
            infos@ == self.infos(),
    {
        self.parameter_info.as_slice()
    }

    /// The metadata of one slot; `None` when there is no slot with this index.
    pub fn get_parameter_info_by_index(&self, global_index: usize) -> (r: Option<&ParameterInfo>)
        requires
            self.wf(),
        ensures
            r is Some <==> global_index < self.len(),
            r is Some ==> *r->Some_0 == self.infos()[global_index as int],
    {
        if global_index < self.parameter_info.len() {
            Some(&self.parameter_info[global_index])
        } else {
            None
        }
    }

    /// Parameter addressing: every parameter of a registered entity has a
    /// global index within the vector, and two different parameters never
    /// share one.
    pub proof fn lemma_global_index_unique(
        &self,
        id_a: Seq<char>,
        local_a: int,
        id_b: Seq<char>,
        local_b: int,
    )
        requires
            self.wf(),
            self.has_entity(id_a),
            self.has_entity(id_b),
            0 <= local_a < self.record_of(id_a).count,
            0 <= local_b < self.record_of(id_b).count,
            id_a != id_b || local_a != local_b,
        ensures
            self.global_index(id_a, local_a) is Some,
            self.global_index(id_b, local_b) is Some,
            0 <= self.global_index(id_a, local_a)->Some_0 < self.len(),
            0 <= self.global_index(id_b, local_b)->Some_0 < self.len(),
            self.global_index(id_a, local_a) != self.global_index(id_b, local_b),
    {
        let recs = self.records();
        let a = self.ids().index_of(id_a);
        let b = self.ids().index_of(id_b);
        assert(recs[a].id == self.ids()[a]);
        assert(recs[b].id == self.ids()[b]);
        assert(recs[a].start + recs[a].count <= self.len());
        assert(recs[b].start + recs[b].count <= self.len());
        if a < b {
            assert(recs[a].start + recs[a].count <= recs[b].start);
        } else if b < a {
            assert(recs[b].start + recs[b].count <= recs[a].start);
        }
    }

    /// The slot at a parameter's global index records the entity and the
    /// local index that lead to it.
    pub proof fn lemma_global_index_inverse(&self, id: Seq<char>, local: int)
        requires
            self.wf(),
            self.global_index(id, local) is Some,
        ensures
            ({
                let info = self.infos()[self.global_index(id, local)->Some_0];
                info.entity_id@ == id && info.param_index == local && info.global_index
                    == self.global_index(id, local)->Some_0
            }),
    {
        let recs = self.records();
        let j = self.ids().index_of(id);
        assert(recs[j].id == self.ids()[j]);
        assert(describes(self.infos()[recs[j].start + local], recs[j], local));
    }

    /// The position of an entity among the registered ones.
    fn find(&self, entity_id: &String) -> (r: Option<usize>)
        ensures
            match r {
                Some(j) => {
                    &&& j < self.records().len()
                    &&& self.ids()[j as int] == entity_id@
                    &&& self.has_entity(entity_id@)
                    &&& self.ids().no_duplicates() ==> self.ids().index_of(entity_id@) == j
                    &&& self.records()[j as int].start == self.entities@[j as int].start
                    &&& self.records()[j as int].count == self.entities@[j as int].count
                    &&& self.records()[j as int].kind == self.entities@[j as int].kind
                    &&& self.wf() ==> self.entities@[j as int].start + self.entities@[j as int].count
                        <= self.len() <= usize::MAX
                },
                None => !self.has_entity(entity_id@),
            },
    {
        let mut j: usize = 0;
        while j < self.entities.len()
            invariant
                j <= self.entities@.len(),
                self.records().len() == self.entities@.len(),
                forall|l: int| 0 <= l < j ==> (#[trigger] self.records()[l]).id != entity_id@,
            decreases self.entities@.len() - j,
        {
            if self.entities[j].id == *entity_id {
                proof {
                    assert(self.ids()[j as int] == entity_id@);
                    assert(self.records()[j as int].start == self.entities@[j as int].start);
                    assert(self.parameters@.len() == self.parameters.len());
                    if self.ids().no_duplicates() {
                        lemma_unique_position(self.ids(), j as int);
                    }
                }
                return Some(j);
            }
            j += 1;
        }
        assert(!self.ids().contains(entity_id@)) by {
            if self.ids().contains(entity_id@) {
                let l = choose|l: int| 0 <= l < self.ids().len() && self.ids()[l] == entity_id@;
                assert(self.records()[l].id == entity_id@);
            }
        }
        None
    }
}

impl<S: Copy> Default for ParameterManager<S> {
    /// An empty manager.
    fn default() -> (pm: Self)
        ensures
            pm.wf(),
            pm.records() == Seq::<EntityRecord>::empty(),
            pm.values() == Seq::<S>::empty(),
            pm.infos() == Seq::<ParameterInfo>::empty(),
    {
        Self::new()
    }
}

/// In a list without duplicates, an element's index is the only place where it occurs.
pub proof fn lemma_unique_position(ids: Seq<Seq<char>>, j: int)
    requires
        ids.no_duplicates(),
        0 <= j < ids.len(),
    ensures
        ids.contains(ids[j]),
        ids.index_of(ids[j]) == j,
{
}

} // verus!
