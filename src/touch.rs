use vstd::prelude::*;

verus! {

/// Numeric code of a waveform shape as the drawing backend knows it.
pub type ProjectMTouchType = u32;

pub const TOUCH_TYPE_RANDOM: ProjectMTouchType = 0;

pub const TOUCH_TYPE_CIRCLE: ProjectMTouchType = 1;

pub const TOUCH_TYPE_RADIAL_BLOB: ProjectMTouchType = 2;

pub const TOUCH_TYPE_BLOB2: ProjectMTouchType = 3;

pub const TOUCH_TYPE_BLOB3: ProjectMTouchType = 4;

pub const TOUCH_TYPE_DERIVATIVE_LINE: ProjectMTouchType = 5;

pub const TOUCH_TYPE_BLOB5: ProjectMTouchType = 6;

pub const TOUCH_TYPE_LINE: ProjectMTouchType = 7;

pub const TOUCH_TYPE_DOUBLE_LINE: ProjectMTouchType = 8;

/// Shape of the waveform drawn at a touch point.
#[derive(PartialEq, Eq, Structural, Debug, Clone, Copy)]
pub enum TouchType {
    Random,
    Circle,
    RadialBlob,
    Blob2,
    Blob3,
    Blob5,
    Line,
    DoubleLine,
    DerivitaveLine,
}

pub open spec fn touch_code(t: TouchType) -> u32 {
    match t {
        TouchType::Random => TOUCH_TYPE_RANDOM,
        TouchType::Circle => TOUCH_TYPE_CIRCLE,
        TouchType::RadialBlob => TOUCH_TYPE_RADIAL_BLOB,
        TouchType::Blob2 => TOUCH_TYPE_BLOB2,
        TouchType::Blob3 => TOUCH_TYPE_BLOB3,
        TouchType::Blob5 => TOUCH_TYPE_BLOB5,
        TouchType::Line => TOUCH_TYPE_LINE,
        TouchType::DoubleLine => TOUCH_TYPE_DOUBLE_LINE,
        TouchType::DerivitaveLine => TOUCH_TYPE_DERIVATIVE_LINE,
    }
}

impl From<TouchType> for ProjectMTouchType {
    fn from(val: TouchType) -> (r: ProjectMTouchType) {
        match val {
            TouchType::Random => TOUCH_TYPE_RANDOM,
            TouchType::Circle => TOUCH_TYPE_CIRCLE,
            TouchType::RadialBlob => TOUCH_TYPE_RADIAL_BLOB,
            TouchType::Blob2 => TOUCH_TYPE_BLOB2,
            TouchType::Blob3 => TOUCH_TYPE_BLOB3,
            TouchType::Blob5 => TOUCH_TYPE_BLOB5,
            TouchType::Line => TOUCH_TYPE_LINE,
            TouchType::DoubleLine => TOUCH_TYPE_DOUBLE_LINE,
            TouchType::DerivitaveLine => TOUCH_TYPE_DERIVATIVE_LINE,
        }
    }
}

impl vstd::std_specs::convert::FromSpecImpl<TouchType> for ProjectMTouchType {
    open spec fn obeys_from_spec() -> bool {
        true
    }

    open spec fn from_spec(v: TouchType) -> ProjectMTouchType {
        touch_code(v)
    }
}

/// A waveform emitter placed on screen; its identity is its position.
#[derive(PartialEq, Eq, Structural, Debug, Clone, Copy)]
pub struct TouchPoint {
    pub x: i32,
    pub y: i32,
    pub pressure: i32,
    pub kind: TouchType,
}

pub open spec fn is_at(p: TouchPoint, x: i32, y: i32) -> bool {
    p.x == x && p.y == y
}

/// Squared Euclidean distance from a point to `(x, y)`.
pub open spec fn dist2(p: TouchPoint, x: i32, y: i32) -> int {
    (p.x - x) * (p.x - x) + (p.y - y) * (p.y - y)
}

proof fn lemma_dist2_zero(p: TouchPoint, x: i32, y: i32)
    ensures
        dist2(p, x, y) >= 0,
        is_at(p, x, y) <==> dist2(p, x, y) == 0,
{
    let dx = p.x - x;
    let dy = p.y - y;
    assert(dx * dx >= 0 && dy * dy >= 0) by (nonlinear_arith);
    assert(dx * dx + dy * dy == 0 ==> dx == 0 && dy == 0) by (nonlinear_arith);
    assert(dx == 0 && dy == 0 ==> dx * dx + dy * dy == 0) by (nonlinear_arith);
}

/// No two points share a position.
pub open spec fn distinct_positions(s: Seq<TouchPoint>) -> bool {
    forall|i: int, j: int|
        0 <= i < s.len() && 0 <= j < s.len() && i != j ==> !is_at(s[i], s[j].x, s[j].y)
}

pub open spec fn has_point_at(s: Seq<TouchPoint>, x: i32, y: i32) -> bool {
    exists|i: int| 0 <= i < s.len() && is_at(#[trigger] s[i], x, y)
}

/// `i` is the first of the points nearest to `(x, y)`.
pub open spec fn is_nearest(s: Seq<TouchPoint>, i: int, x: i32, y: i32) -> bool {
    &&& 0 <= i < s.len()
    &&& forall|j: int| 0 <= j < s.len() ==> dist2(#[trigger] s[j], x, y) >= dist2(s[i], x, y)
    &&& forall|j: int| 0 <= j < i ==> dist2(#[trigger] s[j], x, y) > dist2(s[i], x, y)
}

/// `post` is `pre` with a point placed at `(x, y)`, overwriting the one there.
pub open spec fn added(pre: Seq<TouchPoint>, post: Seq<TouchPoint>, p: TouchPoint) -> bool {
    &&& forall|i: int|
        0 <= i < pre.len() && is_at(#[trigger] pre[i], p.x, p.y) ==> post == pre.update(i, p)
    &&& !has_point_at(pre, p.x, p.y) ==> post == pre.push(p)
}

/// `post` is `pre` without the point at `(x, y)`.
pub open spec fn destroyed(pre: Seq<TouchPoint>, post: Seq<TouchPoint>, x: i32, y: i32) -> bool {
    &&& !has_point_at(post, x, y)
    &&& forall|i: int| 0 <= i < pre.len() && is_at(#[trigger] pre[i], x, y) ==> post == pre.remove(i)
    &&& !has_point_at(pre, x, y) ==> post == pre
}

/// `post` is `pre` with its point nearest to `(x, y)` moved there.
pub open spec fn dragged(pre: Seq<TouchPoint>, post: Seq<TouchPoint>, x: i32, y: i32, pressure: i32) -> bool {
    &&& pre.len() == 0 ==> post == pre
    &&& pre.len() > 0 ==> exists|i: int|
        is_nearest(pre, i, x, y) && post == pre.update(i, TouchPoint { x, y, pressure, kind: pre[i].kind })
}

/// The set of touch-placed waveforms, in order of creation.
#[derive(Debug)]
pub struct TouchOverlay {
    points: Vec<TouchPoint>,
}

impl View for TouchOverlay {
    type V = Seq<TouchPoint>;

    closed spec fn view(&self) -> Seq<TouchPoint> {
        self.points@
    }
}

impl TouchOverlay {
    pub open spec fn wf(&self) -> bool {
        distinct_positions(self@)
    }

    pub fn new() -> (r: TouchOverlay)
        ensures
            r@ == Seq::<TouchPoint>::empty(),
            r.wf(),
    {
        TouchOverlay { points: Vec::new() }
    }

    pub fn len(&self) -> (r: usize)
        ensures
            r == self@.len(),
    {
        self.points.len()
    }

    pub fn points(&self) -> (r: Vec<TouchPoint>)
        ensures
            r@ == self@,
    {
        self.points.clone()
    }

    fn find(&self, x: i32, y: i32) -> (r: Option<usize>)
        requires
            self.wf(),
        ensures
            match r {
                Some(i) => i < self@.len() && is_at(self@[i as int], x, y),
                None => !has_point_at(self@, x, y),
            },
    {
        let mut i: usize = 0;
        while i < self.points.len()
            invariant
                0 <= i <= self@.len(),
                forall|j: int| 0 <= j < i ==> !is_at(#[trigger] self@[j], x, y),
            decreases self@.len() - i,
        {
            if self.points[i].x == x && self.points[i].y == y {
                return Some(i);
            }
            i = i + 1;
        }
        None
    }

    /// Places a waveform at `(x, y)`; a point already there is overwritten.
    pub fn add(&mut self, x: i32, y: i32, pressure: i32, kind: TouchType)
        requires
            old(self).wf(),
        ensures
            final(self).wf(),
            added(old(self)@, final(self)@, TouchPoint { x, y, pressure, kind }),
    {
        let p = TouchPoint { x, y, pressure, kind };
        match self.find(x, y) {
            Some(i) => {
                self.points.set(i, p);
                assert forall|k: int|
                    0 <= k < old(self)@.len() && is_at(#[trigger] old(self)@[k], x, y) implies k
                    == i by {
                    if k != i {
                        assert(!is_at(old(self)@[k], old(self)@[i as int].x, old(self)@[i as int].y));
                    }
                }
            },
            None => {
                self.points.push(p);
                assert(distinct_positions(self@)) by {
                    assert forall|a: int, b: int|
                        0 <= a < self@.len() && 0 <= b < self@.len() && a != b implies !is_at(
                        self@[a],
                        self@[b].x,
                        self@[b].y,
                    ) by {
                        if a < old(self)@.len() && b < old(self)@.len() {
                            assert(!is_at(old(self)@[a], old(self)@[b].x, old(self)@[b].y));
                        }
                        if a == old(self)@.len() {
                            assert(!is_at(old(self)@[b], x, y));
                        }
                        if b == old(self)@.len() {
                            assert(!is_at(old(self)@[a], x, y));
                        }
                    }
                }
            },
        }
    }

    /// Removes the point at `(x, y)`; no change when there is none.
    pub fn destroy(&mut self, x: i32, y: i32)
        requires
            old(self).wf(),
        ensures
            final(self).wf(),
            destroyed(old(self)@, final(self)@, x, y),
    {
        match self.find(x, y) {
            Some(i) => {
                self.points.remove(i);
                assert forall|k: int|
                    0 <= k < old(self)@.len() && is_at(#[trigger] old(self)@[k], x, y) implies k
                    == i by {
                    if k != i {
                        assert(!is_at(old(self)@[k], old(self)@[i as int].x, old(self)@[i as int].y));
                    }
                }
                assert(distinct_positions(self@)) by {
                    assert forall|a: int, b: int|
                        0 <= a < self@.len() && 0 <= b < self@.len() && a != b implies !is_at(
                        self@[a],
                        self@[b].x,
                        self@[b].y,
                    ) by {
                        let oa = if a < i { a } else { a + 1 };
                        let ob = if b < i { b } else { b + 1 };
                        assert(self@[a] == old(self)@[oa]);
                        assert(self@[b] == old(self)@[ob]);
                        assert(!is_at(old(self)@[oa], old(self)@[ob].x, old(self)@[ob].y));
                    }
                }
                proof {
                    if has_point_at(self@, x, y) {
                        let k = choose|k: int| 0 <= k < self@.len() && is_at(#[trigger] self@[k], x, y);
                        let ok = if k < i { k } else { k + 1 };
                        assert(self@[k] == old(self)@[ok]);
                        assert(!is_at(old(self)@[ok], old(self)@[i as int].x, old(self)@[i as int].y));
                    }
                }
            },
            None => {},
        }
    }

    /// Removes every point.
    pub fn destroy_all(&mut self)
        ensures
            final(self)@ == Seq::<TouchPoint>::empty(),
            final(self).wf(),
    {
        self.points = Vec::new();
    }

    fn dist2_exec(p: &TouchPoint, x: i32, y: i32) -> (r: i128)
        ensures
            r == dist2(*p, x, y),
    {
        let dx: i128 = p.x as i128 - x as i128;
        let dy: i128 = p.y as i128 - y as i128;
        assert(dx * dx <= 0x1_0000_0000_0000_0000) by (nonlinear_arith)
            requires
                -0x1_0000_0000 <= dx <= 0x1_0000_0000,
        ;
        assert(dy * dy <= 0x1_0000_0000_0000_0000) by (nonlinear_arith)
            requires
                -0x1_0000_0000 <= dy <= 0x1_0000_0000,
        ;
        assert(dx * dx >= 0) by (nonlinear_arith);
        assert(dy * dy >= 0) by (nonlinear_arith);
        dx * dx + dy * dy
    }

    /// Moves the point nearest to `(x, y)` (the earliest one among equally near
    /// points) to `(x, y)` with the given pressure; no change when there is none.
    pub fn drag(&mut self, x: i32, y: i32, pressure: i32)
        requires
            old(self).wf(),
        ensures
            final(self).wf(),
            dragged(old(self)@, final(self)@, x, y, pressure),
    {
        let n = self.points.len();
        if n == 0 {
            return;
        }
        let mut best: usize = 0;
        let mut best_d: i128 = Self::dist2_exec(&self.points[0], x, y);
        let mut i: usize = 1;
        while i < n
            invariant
                n == self@.len(),
                1 <= i <= n,
                best < i,
                best_d == dist2(self@[best as int], x, y),
                forall|j: int| 0 <= j < i ==> dist2(#[trigger] self@[j], x, y) >= best_d,
                forall|j: int| 0 <= j < best ==> dist2(#[trigger] self@[j], x, y) > best_d,
            decreases n - i,
        {
            let d = Self::dist2_exec(&self.points[i], x, y);
            if d < best_d {
                best = i;
                best_d = d;
            }
            i = i + 1;
        }
        let kind = self.points[best].kind;
        let ghost before = self@;
        self.points.set(best, TouchPoint { x, y, pressure, kind });
        assert(is_nearest(before, best as int, x, y));
        assert(distinct_positions(self@)) by {
            assert forall|a: int, b: int|
                0 <= a < self@.len() && 0 <= b < self@.len() && a != b implies !is_at(
                self@[a],
                self@[b].x,
                self@[b].y,
            ) by {
                if a != best && b != best {
                    assert(!is_at(before[a], before[b].x, before[b].y));
                } else if a == best {
                    if is_at(before[b], x, y) {
                        lemma_dist2_zero(before[b], x, y);
                        lemma_dist2_zero(before[best as int], x, y);
                        assert(!is_at(before[b], before[best as int].x, before[best as int].y));
                    }
                } else {
                    if is_at(before[a], x, y) {
                        lemma_dist2_zero(before[a], x, y);
                        lemma_dist2_zero(before[best as int], x, y);
                        assert(!is_at(before[a], before[best as int].x, before[best as int].y));
                    }
                }
            }
        }
    }
}

} // verus!
