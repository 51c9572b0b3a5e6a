//! Scale factors of 8-bit products in cuBLASLt.
//!
//! Each operand can be multiplied by scale factors that sit in device memory;
//! their addresses are attributes of the product's descriptor.

use vstd::prelude::*;

use crate::steps::{RunView, StepRun};

verus! {

/// Descriptor attribute of the scale address of operand A.
pub const A_SCALE_POINTER: u32 = 17;

/// Descriptor attribute of the scale address of operand B.
pub const B_SCALE_POINTER: u32 = 18;

/// Descriptor attribute of the scale address of operand C.
pub const C_SCALE_POINTER: u32 = 19;

/// Descriptor attribute of the scale address of operand D.
pub const D_SCALE_POINTER: u32 = 20;

/// Device addresses of the scale factors; an operand without one has scale 1.
#[derive(Debug, Clone, Copy, PartialEq, Eq, Structural)]
pub struct ScaleSet {
    pub a: Option<u64>,
    pub b: Option<u64>,
    pub c: Option<u64>,
    pub d: Option<u64>,
}

/// Setting of one address attribute on a descriptor.
#[derive(Debug, Clone, Copy, PartialEq, Eq, Structural)]
pub struct SetPointer {
    pub attribute: u32,
    pub ptr: u64,
}

/// The setting of an attribute, where its address is there.
pub open spec fn setting(attribute: u32, ptr: Option<u64>) -> Seq<SetPointer> {
    match ptr {
        Some(ptr) => seq![SetPointer { attribute, ptr }],
        None => seq![],
    }
}

impl Default for ScaleSet {
    fn default() -> (s: ScaleSet)
        ensures
            s == (ScaleSet { a: None, b: None, c: None, d: None }),
    {
        ScaleSet::empty()
    }
}

impl ScaleSet {
    /// No scale factors.
    pub fn empty() -> (s: ScaleSet)
        ensures
            s == (ScaleSet { a: None, b: None, c: None, d: None }),
    {
        ScaleSet { a: None, b: None, c: None, d: None }
    }

    pub fn with_a(self, ptr: u64) -> (s: ScaleSet)
        ensures
            s == (ScaleSet { a: Some(ptr), ..self }),
    {
        ScaleSet { a: Some(ptr), ..self }
    }

    pub fn with_b(self, ptr: u64) -> (s: ScaleSet)
        ensures
            s == (ScaleSet { b: Some(ptr), ..self }),
    {
        ScaleSet { b: Some(ptr), ..self }
    }

    pub fn with_c(self, ptr: u64) -> (s: ScaleSet)
        ensures
            s == (ScaleSet { c: Some(ptr), ..self }),
    {
        ScaleSet { c: Some(ptr), ..self }
    }

    pub fn with_d(self, ptr: u64) -> (s: ScaleSet)
        ensures
            s == (ScaleSet { d: Some(ptr), ..self }),
    {
        ScaleSet { d: Some(ptr), ..self }
    }

    pub fn is_empty(&self) -> (b: bool)
        ensures
            b == (self.a is None && self.b is None && self.c is None && self.d is None),
    {
        self.a.is_none() && self.b.is_none() && self.c.is_none() && self.d.is_none()
    }

    /// The attributes to set, in the order A, B, C, D.
    pub open spec fn settings(self) -> Seq<SetPointer> {
        setting(A_SCALE_POINTER, self.a) + setting(B_SCALE_POINTER, self.b) + setting(
            C_SCALE_POINTER,
            self.c,
        ) + setting(D_SCALE_POINTER, self.d)
    }

    /// The attributes to set on a descriptor, one after the other; the run
    /// stops at the first one that the library refuses.
    pub fn apply(&self) -> (run: StepRun<SetPointer>)
        ensures
            run@ == (RunView { steps: self.settings(), done: 0, failed: false }),
            run@.wf(),
    {
        let mut steps: Vec<SetPointer> = Vec::new();
        if let Some(ptr) = self.a {
            steps.push(SetPointer { attribute: A_SCALE_POINTER, ptr });
        }
        assert(steps@ =~= setting(A_SCALE_POINTER, self.a));
        if let Some(ptr) = self.b {
            steps.push(SetPointer { attribute: B_SCALE_POINTER, ptr });
        }
        assert(steps@ =~= setting(A_SCALE_POINTER, self.a) + setting(B_SCALE_POINTER, self.b));
        if let Some(ptr) = self.c {
            steps.push(SetPointer { attribute: C_SCALE_POINTER, ptr });
        }
        assert(steps@ =~= setting(A_SCALE_POINTER, self.a) + setting(B_SCALE_POINTER, self.b)
            + setting(C_SCALE_POINTER, self.c));
        if let Some(ptr) = self.d {
            steps.push(SetPointer { attribute: D_SCALE_POINTER, ptr });
        }
        assert(steps@ =~= self.settings());
        StepRun::new(steps)
    }
}

/// The null address, for a caller that wants the slot taken but has no buffer.
pub fn null_scale_ptr() -> (p: u64)
    ensures
        p == 0,
{
    0
}

/// An empty set sets nothing, and only an empty one does.
pub proof fn law_empty_sets_nothing(s: ScaleSet)
    ensures
        s.settings().len() == 0 <==> (s.a is None && s.b is None && s.c is None && s.d is None),
        s.settings().len() <= 4,
{
}

/// The address of an operand's scale factors is set under that operand's own
/// attribute, once, and no other address is set.
pub proof fn law_each_operand_has_its_attribute(s: ScaleSet)
    ensures
        s.a matches Some(ptr) ==> s.settings().contains(SetPointer { attribute: 17, ptr }),
        s.b matches Some(ptr) ==> s.settings().contains(SetPointer { attribute: 18, ptr }),
        s.c matches Some(ptr) ==> s.settings().contains(SetPointer { attribute: 19, ptr }),
        s.d matches Some(ptr) ==> s.settings().contains(SetPointer { attribute: 20, ptr }),
        forall|i: int|
            0 <= i < s.settings().len() ==> {
                let set = #[trigger] s.settings()[i];
                ||| set.attribute == 17 && s.a == Some(set.ptr)
                ||| set.attribute == 18 && s.b == Some(set.ptr)
                ||| set.attribute == 19 && s.c == Some(set.ptr)
                ||| set.attribute == 20 && s.d == Some(set.ptr)
            },
        forall|i: int, j: int|
            0 <= i < j < s.settings().len() ==> (#[trigger] s.settings()[i]).attribute < (
            #[trigger] s.settings()[j]).attribute,
{
    let a = setting(A_SCALE_POINTER, s.a);
    let ab = a + setting(B_SCALE_POINTER, s.b);
    let abc = ab + setting(C_SCALE_POINTER, s.c);
    let all = s.settings();
    assert(all == abc + setting(D_SCALE_POINTER, s.d));
    if s.a is Some {
        assert(all[0] == a[0]);
    }
    if s.b is Some {
        assert(all[a.len() as int] == setting(B_SCALE_POINTER, s.b)[0]);
    }
    if s.c is Some {
        assert(all[ab.len() as int] == setting(C_SCALE_POINTER, s.c)[0]);
    }
    if s.d is Some {
        assert(all[abc.len() as int] == setting(D_SCALE_POINTER, s.d)[0]);
    }
}

} // verus!
