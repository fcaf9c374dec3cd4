use vstd::prelude::*;
use vstd::string::StringExecFns;
use crate::error::SolverError;
use crate::parameter_system::ParametricEntity;

verus! {

/// A point of the plane. Its solver parameters are `[x, y]`.
#[derive(Debug, Clone, PartialEq)]
pub struct Point<S> {
    pub id: String,
    pub x: S,
    pub y: S,
    pub fixed: bool,
}

impl<S: Copy> Point<S> {
    pub fn new(id: String, x: S, y: S, fixed: bool) -> (p: Self)
        ensures
            p.id == id,
            p.x == x,
            p.y == y,
            p.fixed == fixed,
    {
        Point { id, x, y, fixed }
    }
}

impl<S: Copy> ParametricEntity<S> for Point<S> {
    open spec fn parameters(&self) -> Seq<S> {
        seq![self.x, self.y]
    }

    open spec fn names(&self) -> Seq<Seq<char>> {
        seq![self.id@ + ".x"@, self.id@ + ".y"@]
    }

    open spec fn fixed_at(&self, param_index: int) -> bool {
        if 0 <= param_index < 2 {
            self.fixed
        } else {
            true
        }
    }

    open spec fn with_parameters(&self, params: Seq<S>) -> Self {
        Point { id: self.id, x: params[0], y: params[1], fixed: self.fixed }
    }

    proof fn lemma_with_own_parameters(&self) {
    }

    fn get_parameters(&self) -> (params: Vec<S>) {
        let mut params: Vec<S> = Vec::new();
        params.push(self.x);
        params.push(self.y);
        assert(params@ =~= self.parameters());
        params
    }

    fn set_parameters(&mut self, params: &[S]) -> (r: Result<(), SolverError>) {
        if params.len() != 2 {
            return Err(SolverError::DimensionMismatch);
        }
        self.x = params[0];
        self.y = params[1];
        assert(self.parameters() =~= params@);
        Ok(())
    }

    fn parameter_names(&self) -> (names: Vec<String>) {
        let mut names: Vec<String> = Vec::new();
        names.push(self.id.clone().concat(".x"));
        names.push(self.id.clone().concat(".y"));
        names
    }

    fn is_parameter_fixed(&self, param_index: usize) -> (fixed: bool) {
        if param_index < 2 {
            self.fixed
        } else {
            true
        }
    }
}

/// A line between two points, which it names by their ids. It has no
/// solver parameters of its own.
#[derive(Debug, Clone, PartialEq)]
pub struct Line {
    pub id: String,
    pub start: String,
    pub end: String,
}

impl Line {
    pub fn new(id: String, start: String, end: String) -> (l: Self)
        ensures
            l.id == id,
            l.start == start,
            l.end == end,
    {
        Line { id, start, end }
    }
}

/// A circle round a point, which it names by its id. Its only solver
/// parameter is `[radius]`.
#[derive(Debug, Clone, PartialEq)]
pub struct Circle<S> {
    pub id: String,
    pub center: String,
    pub radius: S,
    pub fixed: bool,
}

impl<S: Copy> Circle<S> {
    pub fn new(id: String, center: String, radius: S, fixed: bool) -> (c: Self)
        ensures
            c.id == id,
            c.center == center,
            c.radius == radius,
            c.fixed == fixed,
    {
        Circle { id, center, radius, fixed }
    }
}

impl<S: Copy> ParametricEntity<S> for Circle<S> {
    open spec fn parameters(&self) -> Seq<S> {
        seq![self.radius]
    }

    open spec fn names(&self) -> Seq<Seq<char>> {
        seq![self.id@ + ".radius"@]
    }

    open spec fn fixed_at(&self, param_index: int) -> bool {
        if param_index == 0 {
            self.fixed
        } else {
            true
        }
    }

    open spec fn with_parameters(&self, params: Seq<S>) -> Self {
        Circle { id: self.id, center: self.center, radius: params[0], fixed: self.fixed }
    }

    proof fn lemma_with_own_parameters(&self) {
    }

    fn get_parameters(&self) -> (params: Vec<S>) {
        let mut params: Vec<S> = Vec::new();
        params.push(self.radius);
        assert(params@ =~= self.parameters());
        params
    }

    fn set_parameters(&mut self, params: &[S]) -> (r: Result<(), SolverError>) {
        if params.len() != 1 {
            return Err(SolverError::DimensionMismatch);
        }
        self.radius = params[0];
        assert(self.parameters() =~= params@);
        Ok(())
    }

    fn parameter_names(&self) -> (names: Vec<String>) {
        let mut names: Vec<String> = Vec::new();
        names.push(self.id.clone().concat(".radius"));
        names
    }

    fn is_parameter_fixed(&self, param_index: usize) -> (fixed: bool) {
        if param_index == 0 {
            self.fixed
        } else {
            true
        }
    }
}

/// An arc round a point, which it names by its id. Its solver parameters
/// are `[radius, start_angle, end_angle]`, the angles in radians.
#[derive(Debug, Clone, PartialEq)]
pub struct Arc<S> {
    pub id: String,
    pub center: String,
    pub radius: S,
    pub start_angle: S,
    pub end_angle: S,
    pub fixed: bool,
}

impl<S: Copy> Arc<S> {
    pub fn new(
        id: String,
        center: String,
        radius: S,
        start_angle: S,
        end_angle: S,
        fixed: bool,
    ) -> (a: Self)
        ensures
            a.id == id,
            a.center == center,
            a.radius == radius,
            a.start_angle == start_angle,
            a.end_angle == end_angle,
            a.fixed == fixed,
    {
        Arc { id, center, radius, start_angle, end_angle, fixed }
    }
}

impl<S: Copy> ParametricEntity<S> for Arc<S> {
    open spec fn parameters(&self) -> Seq<S> {
        seq![self.radius, self.start_angle, self.end_angle]
    }

    open spec fn names(&self) -> Seq<Seq<char>> {
        seq![self.id@ + ".radius"@, self.id@ + ".start_angle"@, self.id@ + ".end_angle"@]
    }

    open spec fn fixed_at(&self, param_index: int) -> bool {
        if 0 <= param_index < 3 {
            self.fixed
        } else {
            true
        }
    }

    open spec fn with_parameters(&self, params: Seq<S>) -> Self {
        Arc {
            id: self.id,
            center: self.center,
            radius: params[0],
            start_angle: params[1],
            end_angle: params[2],
            fixed: self.fixed,
        }
    }

    proof fn lemma_with_own_parameters(&self) {
    }

    fn get_parameters(&self) -> (params: Vec<S>) {
        let mut params: Vec<S> = Vec::new();
        params.push(self.radius);
        params.push(self.start_angle);
        params.push(self.end_angle);
        assert(params@ =~= self.parameters());
        params
    }

    fn set_parameters(&mut self, params: &[S]) -> (r: Result<(), SolverError>) {
        if params.len() != 3 {
            return Err(SolverError::DimensionMismatch);
        }
        self.radius = params[0];
        self.start_angle = params[1];
        self.end_angle = params[2];
        assert(self.parameters() =~= params@);
        Ok(())
    }

    fn parameter_names(&self) -> (names: Vec<String>) {
        let mut names: Vec<String> = Vec::new();
        names.push(self.id.clone().concat(".radius"));
        names.push(self.id.clone().concat(".start_angle"));
        names.push(self.id.clone().concat(".end_angle"));
        names
    }

    fn is_parameter_fixed(&self, param_index: usize) -> (fixed: bool) {
        if param_index < 3 {
            self.fixed
        } else {
            true
        }
    }
}

/// A map from ids to values that remembers the order in which the ids
/// came: a new id goes to the end, and a value stored under an id that is
/// already there takes the place of the old one.
#[derive(Debug, Clone)]
pub struct EntityMap<V> {
    keys: Vec<String>,
    values: Vec<V>,
}

impl<V> EntityMap<V> {
    /// The ids, in the order in which they came.
    pub closed spec fn keys(&self) -> Seq<Seq<char>> {
        self.keys@.map_values(|k: String| k@)
    }

    /// The values, each at the position of its id.
    pub closed spec fn values(&self) -> Seq<V> {
        self.values@
    }

    /// The map's invariant: one value per id, and no id twice.
    pub open spec fn wf(&self) -> bool {
        &&& self.keys().no_duplicates()
        &&& self.keys().len() == self.values().len()
    }

    /// Whether a value is stored under this id.
    pub open spec fn contains(&self, key: Seq<char>) -> bool {
        self.keys().contains(key)
    }

    /// The position of an id that is in the map.
    pub open spec fn position(&self, key: Seq<char>) -> int {
        self.keys().index_of(key)
    }

    /// The value stored under an id that is in the map.
    pub open spec fn value_of(&self, key: Seq<char>) -> V {
        self.values()[self.position(key)]
    }

    /// An empty map.
    pub fn new() -> (m: Self)
        ensures
            m.wf(),
            m.keys() == Seq::<Seq<char>>::empty(),
            m.values() == Seq::<V>::empty(),
    {
        let m = EntityMap { keys: Vec::new(), values: Vec::new() };
        assert(m.keys() =~= Seq::<Seq<char>>::empty());
        m
    }

    /// The number of ids.
    pub fn len(&self) -> (n: usize)
        requires
            self.wf(),
        ensures
            n == self.keys().len(),
    {
        self.values.len()
    }

    /// Whether the map holds nothing.
    pub fn is_empty(&self) -> (b: bool)
        requires
            self.wf(),
        ensures
            b == (self.keys().len() == 0),
    {
        self.values.len() == 0
    }

    /// The position of an id, where the map holds it.
    fn find(&self, key: &String) -> (r: Option<usize>)
        requires
            self.wf(),
        ensures
            match r {
                Some(i) => i < self.keys().len() && self.keys()[i as int] == key@ && self.contains(key@)
                    && self.position(key@) == i,
                None => !self.contains(key@),
            },
    {
        let mut i: usize = 0;
        while i < self.keys.len()
            invariant
                self.wf(),
                i <= self.keys@.len(),
                self.keys().len() == self.keys@.len(),
                forall|j: int| 0 <= j < i ==> #[trigger] self.keys()[j] != key@,
            decreases self.keys@.len() - i,
        {
            if self.keys[i] == *key {
                proof {
                    assert(self.keys()[i as int] == key@);
                    crate::parameter_system::lemma_unique_position(self.keys(), i as int);
                }
                return Some(i);
            }
            i += 1;
        }
        None
    }

    /// Whether a value is stored under this id.
    pub fn contains_key(&self, key: &str) -> (b: bool)
        requires
            self.wf(),
        ensures
            b == self.contains(key@),
    {
        let owned = key.to_owned();
        self.find(&owned).is_some()
    }

    /// Stores a value under an id: in the place of the value that the id
    /// had, or at the end where the id is new.
    pub fn insert(&mut self, key: String, value: V)
        requires
            old(self).wf(),
        ensures
            final(self).wf(),
            old(self).contains(key@) ==> final(self).keys() == old(self).keys() && final(self).values()
                == old(self).values().update(old(self).position(key@), value),
            !old(self).contains(key@) ==> final(self).keys() == old(self).keys().push(key@)
                && final(self).values() == old(self).values().push(value),
            final(self).contains(key@),
            final(self).value_of(key@) == value,
            forall|other: Seq<char>| old(self).contains(other) ==> #[trigger] final(self).contains(other),
    {
        proof {
            assert forall|other: Seq<char>| old(self).contains(other) implies old(self).keys().push(
                key@,
            ).contains(other) by {
                let i = old(self).keys().index_of(other);
                assert(old(self).keys().push(key@)[i] == other);
            }
        }
        match self.find(&key) {
            Some(i) => {
                self.values.set(i, value);
            },
            None => {
                self.keys.push(key);
                self.values.push(value);
                proof {
                    assert(self.keys() =~= old(self).keys().push(key@));
                    let n = old(self).keys().len() as int;
                    assert(self.keys()[n] == key@);
                    assert forall|a: int, b: int|
                        0 <= a < self.keys().len() && 0 <= b < self.keys().len() && a != b implies self.keys()[a]
                        != self.keys()[b] by {
                        if a < n && b < n {
                            assert(old(self).keys()[a] != old(self).keys()[b]);
                        } else if a < n {
                            assert(old(self).keys().contains(old(self).keys()[a]));
                        } else {
                            assert(old(self).keys().contains(old(self).keys()[b]));
                        }
                    }
                    crate::parameter_system::lemma_unique_position(self.keys(), n);
                }
            },
        }
    }

    /// The value stored under an id; `None` where the map does not hold it.
    pub fn get(&self, key: &str) -> (r: Option<&V>)
        requires
            self.wf(),
        ensures
            r is Some <==> self.contains(key@),
            r is Some ==> *r->Some_0 == self.value_of(key@),
    {
        let owned = key.to_owned();
        match self.find(&owned) {
            Some(i) => Some(&self.values[i]),
            None => None,
        }
    }

    /// The value stored under an id, to change in place; `None` where the
    /// map does not hold the id.
    pub fn get_mut(&mut self, key: &str) -> (r: Option<&mut V>)
        requires
            old(self).wf(),
        ensures
            r is Some <==> old(self).contains(key@),
            final(self).keys() == old(self).keys(),
            match r {
                Some(value) => *value == old(self).value_of(key@) && final(self).values() == old(
                    self,
                ).values().update(old(self).position(key@), *final(value)),
                None => final(self).values() == old(self).values(),
            },
    {
        let owned = key.to_owned();
        match self.find(&owned) {
            Some(i) => Some(&mut self.values[i]),
            None => None,
        }
    }

    /// The id and the value at a position.
    pub(crate) fn entry(&self, i: usize) -> (r: (&String, &V))
        requires
            self.wf(),
            i < self.keys().len(),
        ensures
            r.0@ == self.keys()[i as int],
            *r.1 == self.values()[i as int],
    {
        assert(self.keys()[i as int] == self.keys@[i as int]@);
        (&self.keys[i], &self.values[i])
    }

    /// The value at a position, to change in place.
    pub(crate) fn value_mut(&mut self, i: usize) -> (value: &mut V)
        requires
            old(self).wf(),
            i < old(self).keys().len(),
        ensures
            *value == old(self).values()[i as int],
            final(self).keys() == old(self).keys(),
            final(self).values() == old(self).values().update(i as int, *final(value)),
    {
        &mut self.values[i]
    }

    /// The id at a position; `None` where the position is past the end.
    pub fn key_at(&self, i: usize) -> (r: Option<&String>)
        requires
            self.wf(),
        ensures
            r is Some <==> i < self.keys().len(),
            r is Some ==> r->Some_0@ == self.keys()[i as int],
    {
        if i < self.keys.len() {
            assert(self.keys()[i as int] == self.keys@[i as int]@);
            Some(&self.keys[i])
        } else {
            None
        }
    }

    /// The value at a position; `None` where the position is past the end.
    pub fn value_at(&self, i: usize) -> (r: Option<&V>)
        requires
            self.wf(),
        ensures
            r is Some <==> i < self.keys().len(),
            r is Some ==> *r->Some_0 == self.values()[i as int],
    {
        if i < self.values.len() {
            Some(&self.values[i])
        } else {
            None
        }
    }

    /// The value at a position, to change in place; `None` where the
    /// position is past the end.
    pub fn value_at_mut(&mut self, i: usize) -> (r: Option<&mut V>)
        requires
            old(self).wf(),
        ensures
            r is Some <==> i < old(self).keys().len(),
            final(self).keys() == old(self).keys(),
            match r {
                Some(value) => *value == old(self).values()[i as int] && final(self).values() == old(
                    self,
                ).values().update(i as int, *final(value)),
                None => final(self).values() == old(self).values(),
            },
    {
        if i < self.values.len() {
            Some(&mut self.values[i])
        } else {
            None
        }
    }
}

/// The primitives of a sketch, each kind in a map of its own, keyed by id.
#[derive(Debug, Clone)]
pub struct GeometrySystem<S> {
    points: EntityMap<Point<S>>,
    lines: EntityMap<Line>,
    circles: EntityMap<Circle<S>>,
    arcs: EntityMap<Arc<S>>,
}

impl<S: Copy> GeometrySystem<S> {
    /// The points.
    pub closed spec fn points(&self) -> EntityMap<Point<S>> {
        self.points
    }

    /// The lines.
    pub closed spec fn lines(&self) -> EntityMap<Line> {
        self.lines
    }

    /// The circles.
    pub closed spec fn circles(&self) -> EntityMap<Circle<S>> {
        self.circles
    }

    /// The arcs.
    pub closed spec fn arcs(&self) -> EntityMap<Arc<S>> {
        self.arcs
    }

    /// The system's invariant: each of its maps is well formed.
    pub open spec fn wf(&self) -> bool {
        &&& self.points().wf()
        &&& self.lines().wf()
        &&& self.circles().wf()
        &&& self.arcs().wf()
    }

    /// How many solver parameters the entity with this id has: 2 for a
    /// point, 1 for a circle, 3 for an arc; `None` where no point, circle or
    /// arc has the id. A line has no parameters and is no entity here.
    pub open spec fn parameter_count(&self, id: Seq<char>) -> Option<int> {
        if self.points().contains(id) {
            Some(2)
        } else if self.circles().contains(id) {
            Some(1)
        } else if self.arcs().contains(id) {
            Some(3)
        } else {
            None
        }
    }

    /// Whether `local` is the index of a parameter of the entity `id`.
    pub open spec fn names_parameter(&self, id: Seq<char>, local: int) -> bool {
        match self.parameter_count(id) {
            Some(n) => 0 <= local < n,
            None => false,
        }
    }

    /// Whether some point, circle or arc with this id has a parameter with
    /// this local index. Where no id is shared between the kinds, this is
    /// `names_parameter`.
    pub open spec fn offers_parameter(&self, id: Seq<char>, local: int) -> bool {
        ||| self.points().contains(id) && 0 <= local < 2
        ||| self.circles().contains(id) && 0 <= local < 1
        ||| self.arcs().contains(id) && 0 <= local < 3
    }

    /// How many solver parameters the entity with this id has.
    pub fn count_parameters(&self, id: &str) -> (r: Option<usize>)
        requires
            self.wf(),
        ensures
            match r {
                Some(n) => self.parameter_count(id@) == Some(n as int),
                None => self.parameter_count(id@) is None,
            },
    {
        if self.points.contains_key(id) {
            Some(2)
        } else if self.circles.contains_key(id) {
            Some(1)
        } else if self.arcs.contains_key(id) {
            Some(3)
        } else {
            None
        }
    }

    /// A system without primitives.
    pub fn new() -> (g: Self)
        ensures
            g.wf(),
            g.points().keys().len() == 0,
            g.lines().keys().len() == 0,
            g.circles().keys().len() == 0,
            g.arcs().keys().len() == 0,
    {
        GeometrySystem {
            points: EntityMap::new(),
            lines: EntityMap::new(),
            circles: EntityMap::new(),
            arcs: EntityMap::new(),
        }
    }

    /// Stores a point under its own id, in the place of the point that had
    /// the id or at the end, and returns the id.
    pub fn add_point(&mut self, point: Point<S>) -> (id: String)
        requires
            old(self).wf(),
        ensures
            final(self).wf(),
            id@ == point.id@,
            forall|other: Seq<char>, local: int|
                old(self).offers_parameter(other, local) ==> #[trigger] final(self).offers_parameter(
                    other,
                    local,
                ),
            final(self).points().contains(point.id@),
            final(self).points().value_of(point.id@) == point,
            old(self).points().contains(point.id@) ==> final(self).points().keys() == old(self).points().keys()
                && final(self).points().values() == old(self).points().values().update(
                old(self).points().position(point.id@),
                point,
            ),
            !old(self).points().contains(point.id@) ==> final(self).points().keys() == old(
                self,
            ).points().keys().push(point.id@) && final(self).points().values() == old(
                self,
            ).points().values().push(point),
            final(self).lines() == old(self).lines(),
            final(self).circles() == old(self).circles(),
            final(self).arcs() == old(self).arcs(),
    {
        let id = point.id.clone();
        self.points.insert(id.clone(), point);
        id
    }

    /// The point with this id; `None` where there is none.
    pub fn get_point(&self, id: &str) -> (r: Option<&Point<S>>)
        requires
            self.wf(),
        ensures
            r is Some <==> self.points().contains(id@),
            r is Some ==> *r->Some_0 == self.points().value_of(id@),
    {
        self.points.get(id)
    }

    /// All points, in the order in which their ids came.
    pub fn get_all_points(&self) -> (all: &EntityMap<Point<S>>)
        ensures
            *all == self.points(),
    {
        &self.points
    }

    /// The point with this id, to change in place; `None` where there is none.
    pub fn get_point_mut(&mut self, id: &str) -> (r: Option<&mut Point<S>>)
        requires
            old(self).wf(),
        ensures
            r is Some <==> old(self).points().contains(id@),
            final(self).points().keys() == old(self).points().keys(),
            match r {
                Some(value) => *value == old(self).points().value_of(id@) && final(self).points().values()
                    == old(self).points().values().update(old(self).points().position(id@), *final(value)),
                None => final(self).points().values() == old(self).points().values(),
            },
            final(self).lines() == old(self).lines(),
            final(self).circles() == old(self).circles(),
            final(self).arcs() == old(self).arcs(),
    {
        self.points.get_mut(id)
    }

    /// All points, to change in place.
    pub fn get_all_points_mut(&mut self) -> (all: &mut EntityMap<Point<S>>)
        ensures
            *all == old(self).points(),
            final(self).points() == *final(all),
            final(self).lines() == old(self).lines(),
            final(self).circles() == old(self).circles(),
            final(self).arcs() == old(self).arcs(),
    {
        &mut self.points
    }

    /// Puts a point in the place of the one stored under `id`. Fails with
    /// `UnknownReference`, changing nothing, where there is none.
    pub fn update_point(&mut self, id: &str, point: Point<S>) -> (r: Result<(), SolverError>)
        requires
            old(self).wf(),
        ensures
            final(self).wf(),
            forall|other: Seq<char>, local: int|
                old(self).offers_parameter(other, local) ==> #[trigger] final(self).offers_parameter(
                    other,
                    local,
                ),
            r is Ok <==> old(self).points().contains(id@),
            r is Ok ==> final(self).points().keys() == old(self).points().keys() && final(self).points().values()
                == old(self).points().values().update(old(self).points().position(id@), point),
            r is Err ==> r == Err::<(), SolverError>(SolverError::UnknownReference) && final(self).points()
                == old(self).points(),
            final(self).lines() == old(self).lines(),
            final(self).circles() == old(self).circles(),
            final(self).arcs() == old(self).arcs(),
    {
        if !self.points.contains_key(id) {
            return Err(SolverError::UnknownReference);
        }
        self.points.insert(id.to_owned(), point);
        Ok(())
    }

    /// Stores a line under its own id, in the place of the line that had
    /// the id or at the end, and returns the id.
    pub fn add_line(&mut self, line: Line) -> (id: String)
        requires
            old(self).wf(),
        ensures
            final(self).wf(),
            id@ == line.id@,
            forall|other: Seq<char>, local: int|
                old(self).offers_parameter(other, local) ==> #[trigger] final(self).offers_parameter(
                    other,
                    local,
                ),
            final(self).lines().contains(line.id@),
            final(self).lines().value_of(line.id@) == line,
            old(self).lines().contains(line.id@) ==> final(self).lines().keys() == old(self).lines().keys()
                && final(self).lines().values() == old(self).lines().values().update(
                old(self).lines().position(line.id@),
                line,
            ),
            !old(self).lines().contains(line.id@) ==> final(self).lines().keys() == old(
                self,
            ).lines().keys().push(line.id@) && final(self).lines().values() == old(
                self,
            ).lines().values().push(line),
            final(self).points() == old(self).points(),
            final(self).circles() == old(self).circles(),
            final(self).arcs() == old(self).arcs(),
    {
        let id = line.id.clone();
        self.lines.insert(id.clone(), line);
        id
    }

    /// The line with this id; `None` where there is none.
    pub fn get_line(&self, id: &str) -> (r: Option<&Line>)
        requires
            self.wf(),
        ensures
            r is Some <==> self.lines().contains(id@),
            r is Some ==> *r->Some_0 == self.lines().value_of(id@),
    {
        self.lines.get(id)
    }

    /// All lines, in the order in which their ids came.
    pub fn get_all_lines(&self) -> (all: &EntityMap<Line>)
        ensures
            *all == self.lines(),
    {
        &self.lines
    }

    /// Stores a circle under its own id, in the place of the circle that had
    /// the id or at the end, and returns the id.
    pub fn add_circle(&mut self, circle: Circle<S>) -> (id: String)
        requires
            old(self).wf(),
        ensures
            final(self).wf(),
            id@ == circle.id@,
            forall|other: Seq<char>, local: int|
                old(self).offers_parameter(other, local) ==> #[trigger] final(self).offers_parameter(
                    other,
                    local,
                ),
            final(self).circles().contains(circle.id@),
            final(self).circles().value_of(circle.id@) == circle,
            old(self).circles().contains(circle.id@) ==> final(self).circles().keys() == old(self).circles().keys()
                && final(self).circles().values() == old(self).circles().values().update(
                old(self).circles().position(circle.id@),
                circle,
            ),
            !old(self).circles().contains(circle.id@) ==> final(self).circles().keys() == old(
                self,
            ).circles().keys().push(circle.id@) && final(self).circles().values() == old(
                self,
            ).circles().values().push(circle),
            final(self).points() == old(self).points(),
            final(self).lines() == old(self).lines(),
            final(self).arcs() == old(self).arcs(),
    {
        let id = circle.id.clone();
        self.circles.insert(id.clone(), circle);
        id
    }

    /// The circle with this id; `None` where there is none.
    pub fn get_circle(&self, id: &str) -> (r: Option<&Circle<S>>)
        requires
            self.wf(),
        ensures
            r is Some <==> self.circles().contains(id@),
            r is Some ==> *r->Some_0 == self.circles().value_of(id@),
    {
        self.circles.get(id)
    }

    /// All circles, in the order in which their ids came.
    pub fn get_all_circles(&self) -> (all: &EntityMap<Circle<S>>)
        ensures
            *all == self.circles(),
    {
        &self.circles
    }

    /// The circle with this id, to change in place; `None` where there is none.
    pub fn get_circle_mut(&mut self, id: &str) -> (r: Option<&mut Circle<S>>)
        requires
            old(self).wf(),
        ensures
            r is Some <==> old(self).circles().contains(id@),
            final(self).circles().keys() == old(self).circles().keys(),
            match r {
                Some(value) => *value == old(self).circles().value_of(id@) && final(self).circles().values()
                    == old(self).circles().values().update(old(self).circles().position(id@), *final(value)),
                None => final(self).circles().values() == old(self).circles().values(),
            },
            final(self).points() == old(self).points(),
            final(self).lines() == old(self).lines(),
            final(self).arcs() == old(self).arcs(),
    {
        self.circles.get_mut(id)
    }

    /// All circles, to change in place.
    pub fn get_all_circles_mut(&mut self) -> (all: &mut EntityMap<Circle<S>>)
        ensures
            *all == old(self).circles(),
            final(self).circles() == *final(all),
            final(self).points() == old(self).points(),
            final(self).lines() == old(self).lines(),
            final(self).arcs() == old(self).arcs(),
    {
        &mut self.circles
    }

    /// Puts a circle in the place of the one stored under `id`. Fails with
    /// `UnknownReference`, changing nothing, where there is none.
    pub fn update_circle(&mut self, id: &str, circle: Circle<S>) -> (r: Result<(), SolverError>)
        requires
            old(self).wf(),
        ensures
            final(self).wf(),
            forall|other: Seq<char>, local: int|
                old(self).offers_parameter(other, local) ==> #[trigger] final(self).offers_parameter(
                    other,
                    local,
                ),
            r is Ok <==> old(self).circles().contains(id@),
            r is Ok ==> final(self).circles().keys() == old(self).circles().keys() && final(self).circles().values()
                == old(self).circles().values().update(old(self).circles().position(id@), circle),
            r is Err ==> r == Err::<(), SolverError>(SolverError::UnknownReference) && final(self).circles()
                == old(self).circles(),
            final(self).points() == old(self).points(),
            final(self).lines() == old(self).lines(),
            final(self).arcs() == old(self).arcs(),
    {
        if !self.circles.contains_key(id) {
            return Err(SolverError::UnknownReference);
        }
        self.circles.insert(id.to_owned(), circle);
        Ok(())
    }

    /// Stores a arc under its own id, in the place of the arc that had
    /// the id or at the end, and returns the id.
    pub fn add_arc(&mut self, arc: Arc<S>) -> (id: String)
        requires
            old(self).wf(),
        ensures
            final(self).wf(),
            id@ == arc.id@,
            forall|other: Seq<char>, local: int|
                old(self).offers_parameter(other, local) ==> #[trigger] final(self).offers_parameter(
                    other,
                    local,
                ),
            final(self).arcs().contains(arc.id@),
            final(self).arcs().value_of(arc.id@) == arc,
            old(self).arcs().contains(arc.id@) ==> final(self).arcs().keys() == old(self).arcs().keys()
                && final(self).arcs().values() == old(self).arcs().values().update(
                old(self).arcs().position(arc.id@),
                arc,
            ),
            !old(self).arcs().contains(arc.id@) ==> final(self).arcs().keys() == old(
                self,
            ).arcs().keys().push(arc.id@) && final(self).arcs().values() == old(
                self,
            ).arcs().values().push(arc),
            final(self).points() == old(self).points(),
            final(self).lines() == old(self).lines(),
            final(self).circles() == old(self).circles(),
    {
        let id = arc.id.clone();
        self.arcs.insert(id.clone(), arc);
        id
    }

    /// The arc with this id; `None` where there is none.
    pub fn get_arc(&self, id: &str) -> (r: Option<&Arc<S>>)
        requires
            self.wf(),
        ensures
            r is Some <==> self.arcs().contains(id@),
            r is Some ==> *r->Some_0 == self.arcs().value_of(id@),
    {
        self.arcs.get(id)
    }

    /// All arcs, in the order in which their ids came.
    pub fn get_all_arcs(&self) -> (all: &EntityMap<Arc<S>>)
        ensures
            *all == self.arcs(),
    {
        &self.arcs
    }

    /// The arc with this id, to change in place; `None` where there is none.
    pub fn get_arc_mut(&mut self, id: &str) -> (r: Option<&mut Arc<S>>)
        requires
            old(self).wf(),
        ensures
            r is Some <==> old(self).arcs().contains(id@),
            final(self).arcs().keys() == old(self).arcs().keys(),
            match r {
                Some(value) => *value == old(self).arcs().value_of(id@) && final(self).arcs().values()
                    == old(self).arcs().values().update(old(self).arcs().position(id@), *final(value)),
                None => final(self).arcs().values() == old(self).arcs().values(),
            },
            final(self).points() == old(self).points(),
            final(self).lines() == old(self).lines(),
            final(self).circles() == old(self).circles(),
    {
        self.arcs.get_mut(id)
    }

    /// All arcs, to change in place.
    pub fn get_all_arcs_mut(&mut self) -> (all: &mut EntityMap<Arc<S>>)
        ensures
            *all == old(self).arcs(),
            final(self).arcs() == *final(all),
            final(self).points() == old(self).points(),
            final(self).lines() == old(self).lines(),
            final(self).circles() == old(self).circles(),
    {
        &mut self.arcs
    }

    /// Puts a arc in the place of the one stored under `id`. Fails with
    /// `UnknownReference`, changing nothing, where there is none.
    pub fn update_arc(&mut self, id: &str, arc: Arc<S>) -> (r: Result<(), SolverError>)
        requires
            old(self).wf(),
        ensures
            final(self).wf(),
            forall|other: Seq<char>, local: int|
                old(self).offers_parameter(other, local) ==> #[trigger] final(self).offers_parameter(
                    other,
                    local,
                ),
            r is Ok <==> old(self).arcs().contains(id@),
            r is Ok ==> final(self).arcs().keys() == old(self).arcs().keys() && final(self).arcs().values()
                == old(self).arcs().values().update(old(self).arcs().position(id@), arc),
            r is Err ==> r == Err::<(), SolverError>(SolverError::UnknownReference) && final(self).arcs()
                == old(self).arcs(),
            final(self).points() == old(self).points(),
            final(self).lines() == old(self).lines(),
            final(self).circles() == old(self).circles(),
    {
        if !self.arcs.contains_key(id) {
            return Err(SolverError::UnknownReference);
        }
        self.arcs.insert(id.to_owned(), arc);
        Ok(())
    }
}

impl<V> Default for EntityMap<V> {
    /// An empty map.
    fn default() -> (m: Self)
        ensures
            m.wf(),
            m.keys() == Seq::<Seq<char>>::empty(),
            m.values() == Seq::<V>::empty(),
    {
        Self::new()
    }
}

impl<S: Copy> Default for GeometrySystem<S> {
    /// A system without primitives.
    fn default() -> (g: Self)
        ensures
            g.wf(),
            g.points().keys().len() == 0,
            g.lines().keys().len() == 0,
            g.circles().keys().len() == 0,
            g.arcs().keys().len() == 0,
    {
        Self::new()
    }
}

} // verus!
