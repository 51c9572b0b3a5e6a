//! Tensors of an operation graph and their strides.

use vstd::prelude::*;

use crate::dtype::CudnnDataType;

verus! {

/// How the elements of a tensor are laid out.
#[derive(Debug, Clone, Copy, PartialEq, Eq, Hash, Structural)]
pub enum TensorLayout {
    /// Channel second, packed: row-major over `[N, C, ...]`.
    NchwPacked,
    /// Channel last, packed: row-major over `[N, ..., C]`.
    NhwcPacked,
    /// The caller gives the strides.
    Strided,
}

/// Element type of a tensor.
#[derive(Debug, Clone, Copy, PartialEq, Eq, Hash, Structural)]
pub enum DtypeTag {
    F32,
    F64,
    F16,
    Bf16,
    I8,
    I32,
    U8,
}

impl DtypeTag {
    /// Short name of the element type.
    pub open spec fn spec_name(self) -> Seq<char> {
        match self {
            DtypeTag::F32 => "f32"@,
            DtypeTag::F64 => "f64"@,
            DtypeTag::F16 => "f16"@,
            DtypeTag::Bf16 => "bf16"@,
            DtypeTag::I8 => "i8"@,
            DtypeTag::I32 => "i32"@,
            DtypeTag::U8 => "u8"@,
        }
    }

    /// Short name of the element type.
    pub fn name(self) -> (s: &'static str)
        ensures
            s@ == self.spec_name(),
    {
        match self {
            DtypeTag::F32 => "f32",
            DtypeTag::F64 => "f64",
            DtypeTag::F16 => "f16",
            DtypeTag::Bf16 => "bf16",
            DtypeTag::I8 => "i8",
            DtypeTag::I32 => "i32",
            DtypeTag::U8 => "u8",
        }
    }

    /// Element type in cuDNN's own terms.
    pub open spec fn spec_cudnn(self) -> CudnnDataType {
        match self {
            DtypeTag::F32 => CudnnDataType::Float,
            DtypeTag::F64 => CudnnDataType::Double,
            DtypeTag::F16 => CudnnDataType::Half,
            DtypeTag::Bf16 => CudnnDataType::Bfloat16,
            DtypeTag::I8 => CudnnDataType::Int8,
            DtypeTag::I32 => CudnnDataType::Int32,
            DtypeTag::U8 => CudnnDataType::Uint8,
        }
    }

    /// Element type in cuDNN's own terms.
    pub fn cudnn(self) -> (d: CudnnDataType)
        ensures
            d == self.spec_cudnn(),
    {
        match self {
            DtypeTag::F32 => CudnnDataType::Float,
            DtypeTag::F64 => CudnnDataType::Double,
            DtypeTag::F16 => CudnnDataType::Half,
            DtypeTag::Bf16 => CudnnDataType::Bfloat16,
            DtypeTag::I8 => CudnnDataType::Int8,
            DtypeTag::I32 => CudnnDataType::Int32,
            DtypeTag::U8 => CudnnDataType::Uint8,
        }
    }

    /// Position of the tag in its declaration.
    pub open spec fn spec_code(self) -> u64 {
        match self {
            DtypeTag::F32 => 0,
            DtypeTag::F64 => 1,
            DtypeTag::F16 => 2,
            DtypeTag::Bf16 => 3,
            DtypeTag::I8 => 4,
            DtypeTag::I32 => 5,
            DtypeTag::U8 => 6,
        }
    }

    pub(crate) fn code(self) -> (c: u64)
        ensures
            c == self.spec_code(),
            c < 7,
    {
        match self {
            DtypeTag::F32 => 0,
            DtypeTag::F64 => 1,
            DtypeTag::F16 => 2,
            DtypeTag::Bf16 => 3,
            DtypeTag::I8 => 4,
            DtypeTag::I32 => 5,
            DtypeTag::U8 => 6,
        }
    }
}

/// Product of the extents from `i` on.
pub open spec fn product_from(dims: Seq<i64>, i: int) -> int
    decreases dims.len() - i,
{
    if i >= dims.len() {
        1
    } else {
        dims[i] * product_from(dims, i + 1)
    }
}

/// Stride of a dimension, in elements.
pub open spec fn stride(dims: Seq<i64>, layout: TensorLayout, i: int) -> int {
    match layout {
        TensorLayout::NchwPacked | TensorLayout::Strided => product_from(dims, i + 1),
        TensorLayout::NhwcPacked => if i == 1 {
            1
        } else if i == 0 {
            dims[1] * product_from(dims, 2)
        } else {
            dims[1] * product_from(dims, i + 1)
        },
    }
}

/// Strides of packed dimensions.
pub open spec fn strides_of(dims: Seq<i64>, layout: TensorLayout) -> Seq<i64> {
    Seq::new(dims.len(), |i: int| stride(dims, layout, i) as i64)
}

/// The dimensions have packed strides: a channel-last tensor has a batch, a
/// channel and a spatial dimension, and every stride is representable.
pub open spec fn packable(dims: Seq<i64>, layout: TensorLayout) -> bool {
    &&& layout == TensorLayout::NhwcPacked ==> dims.len() == 0 || dims.len() >= 3
    &&& forall|i: int|
        0 <= i < dims.len() ==> i64::MIN <= #[trigger] stride(dims, layout, i) <= i64::MAX
}

fn filled(n: usize, v: i64) -> (r: Vec<i64>)
    ensures
        r@ == Seq::new(n as nat, |i: int| v),
{
    let mut r: Vec<i64> = Vec::new();
    let mut i: usize = 0;
    while i < n
        invariant
            i <= n,
            r@ == Seq::new(i as nat, |j: int| v),
        decreases n - i,
    {
        r.push(v);
        i = i + 1;
    }
    r
}

/// Strides of packed dimensions.
pub fn packed_strides(dims: &[i64], layout: TensorLayout) -> (s: Vec<i64>)
    requires
        packable(dims@, layout),
    ensures
        s@ == strides_of(dims@, layout),
{
    let n = dims.len();
    if n == 0 {
        return Vec::new();
    }
    match layout {
        TensorLayout::NchwPacked | TensorLayout::Strided => {
            let mut strides = filled(n, 1);
            let mut i: usize = n - 1;
            assert(stride(dims@, layout, n - 1) == 1);
            while i > 0
                invariant
                    i < n,
                    n == dims.len(),
                    strides.len() == n,
                    layout != TensorLayout::NhwcPacked,
                    packable(dims@, layout),
                    forall|j: int| i <= j < n ==> strides[j] == stride(dims@, layout, j),
                decreases i,
            {
                proof {
                    let k = i - 1;
                    assert(stride(dims@, layout, k) == dims@[k + 1] * stride(dims@, layout, k + 1));
                    assert(strides[i as int] * dims@[i as int] == stride(dims@, layout, k))
                        by (nonlinear_arith)
                        requires
                            strides[i as int] == stride(dims@, layout, k + 1),
                            stride(dims@, layout, k) == dims@[i as int] * stride(
                                dims@,
                                layout,
                                k + 1,
                            ),
                    ;
                }
                let s: i64 = strides[i] * dims[i];
                i = i - 1;
                strides.set(i, s);
            }
            assert(strides@ =~= strides_of(dims@, layout));
            strides
        },
        TensorLayout::NhwcPacked => {
            let mut strides = filled(n, 0);
            strides.set(1, 1);
            let c: i64 = dims[1];
            strides.set(n - 1, c);
            assert(product_from(dims@, n as int) == 1);
            assert(stride(dims@, layout, n - 1) == c) by (nonlinear_arith)
                requires
                    stride(dims@, layout, n - 1) == c * product_from(dims@, n as int),
                    product_from(dims@, n as int) == 1,
            ;
            let mut i: usize = n - 1;
            while i > 2
                invariant
                    2 <= i < n,
                    n == dims.len(),
                    n >= 3,
                    c == dims@[1],
                    strides.len() == n,
                    layout == TensorLayout::NhwcPacked,
                    packable(dims@, layout),
                    strides[1] == 1,
                    forall|j: int| i <= j < n ==> strides[j] == stride(dims@, layout, j),
                decreases i,
            {
                proof {
                    lemma_channel_last_step(dims@, i as int);
                    assert(stride(dims@, layout, i - 1) == strides[i as int] * dims@[i as int]);
                }
                let s: i64 = strides[i] * dims[i];
                i = i - 1;
                strides.set(i, s);
            }
            proof {
                lemma_channel_last_step(dims@, 2);
                assert(stride(dims@, layout, 0) == strides[2] * dims@[2]);
            }
            let s: i64 = strides[2] * dims[2];
            strides.set(0, s);
            assert(strides@ =~= strides_of(dims@, layout));
            strides
        },
    }
}

proof fn lemma_channel_last_step(dims: Seq<i64>, i: int)
    requires
        2 <= i < dims.len(),
    ensures
        dims[1] * product_from(dims, i) == stride(dims, TensorLayout::NhwcPacked, i) * dims[i],
{
    let c = dims[1] as int;
    let d = dims[i] as int;
    let p = product_from(dims, i + 1);
    assert(product_from(dims, i) == d * p);
    assert(c * (d * p) == (c * p) * d) by (nonlinear_arith);
}

/// One tensor of a graph.
#[derive(Debug, Clone, PartialEq, Eq, Hash)]
pub struct TensorSpec {
    pub uid: i64,
    pub dtype: DtypeTag,
    pub dims: Vec<i64>,
    pub strides: Vec<i64>,
    /// Alignment of the data in bytes.
    pub alignment: i64,
    /// An intermediate result without device memory of its own.
    pub is_virtual: bool,
}

/// [`TensorSpec`] with its lists taken as sequences.
#[verifier::ext_equal]
pub struct TensorView {
    pub uid: i64,
    pub dtype: DtypeTag,
    pub dims: Seq<i64>,
    pub strides: Seq<i64>,
    pub alignment: i64,
    pub is_virtual: bool,
}

impl View for TensorSpec {
    type V = TensorView;

    open spec fn view(&self) -> TensorView {
        TensorView {
            uid: self.uid,
            dtype: self.dtype,
            dims: self.dims@,
            strides: self.strides@,
            alignment: self.alignment,
            is_virtual: self.is_virtual,
        }
    }
}

impl TensorView {
    /// Tensor with packed strides.
    pub open spec fn packed(
        uid: i64,
        dtype: DtypeTag,
        dims: Seq<i64>,
        layout: TensorLayout,
    ) -> TensorView {
        TensorView {
            uid,
            dtype,
            dims,
            strides: strides_of(dims, layout),
            alignment: 16,
            is_virtual: false,
        }
    }

    /// The tensor as an intermediate result.
    pub open spec fn virtualized(self) -> TensorView {
        TensorView { is_virtual: true, ..self }
    }
}

impl TensorSpec {
    /// Tensor of these dimensions, with packed strides. Under
    /// [`TensorLayout::Strided`] the caller sets its own strides afterwards.
    pub fn new(uid: i64, dtype: DtypeTag, dims: Vec<i64>, layout: TensorLayout) -> (t: TensorSpec)
        requires
            packable(dims@, layout),
        ensures
            t@ == TensorView::packed(uid, dtype, dims@, layout),
    {
        let strides = packed_strides(dims.as_slice(), layout);
        TensorSpec { uid, dtype, dims, strides, alignment: 16, is_virtual: false }
    }

    /// The tensor with these strides, one per dimension.
    pub fn with_strides(self, strides: Vec<i64>) -> (t: TensorSpec)
        requires
            strides.len() == self.dims.len(),
        ensures
            t@ == (TensorView { strides: strides@, ..self@ }),
    {
        let mut t = self;
        t.strides = strides;
        t
    }

    /// The tensor with this alignment.
    pub fn with_alignment(self, alignment: i64) -> (t: TensorSpec)
        ensures
            t@ == (TensorView { alignment, ..self@ }),
    {
        let mut t = self;
        t.alignment = alignment;
        t
    }

    /// The tensor as an intermediate result.
    pub fn virtualized(self) -> (t: TensorSpec)
        ensures
            t@ == self@.virtualized(),
    {
        let mut t = self;
        t.is_virtual = true;
        t
    }

    /// Number of dimensions.
    pub fn rank(&self) -> (n: usize)
        ensures
            n == self@.dims.len(),
    {
        self.dims.len()
    }
}

/// Offset of an element from dimension `i` on, in a packed tensor.
pub open spec fn offset_from(
    dims: Seq<i64>,
    layout: TensorLayout,
    at: Seq<int>,
    i: int,
) -> int
    decreases dims.len() - i,
{
    if i >= dims.len() {
        0
    } else {
        at[i] * stride(dims, layout, i) + offset_from(dims, layout, at, i + 1)
    }
}

/// Offset of an element in a packed tensor.
pub open spec fn offset(dims: Seq<i64>, layout: TensorLayout, at: Seq<int>) -> int {
    offset_from(dims, layout, at, 0)
}

/// The position is inside the dimensions.
pub open spec fn inside(dims: Seq<i64>, at: Seq<int>) -> bool {
    &&& at.len() == dims.len()
    &&& forall|i: int| 0 <= i < dims.len() ==> 0 <= #[trigger] at[i] < dims[i]
}

proof fn lemma_offset_bound(dims: Seq<i64>, layout: TensorLayout, at: Seq<int>, i: int)
    requires
        layout != TensorLayout::NhwcPacked,
        inside(dims, at),
        0 <= i <= dims.len(),
    ensures
        0 <= offset_from(dims, layout, at, i) < product_from(dims, i),
    decreases dims.len() - i,
{
    if i < dims.len() {
        lemma_offset_bound(dims, layout, at, i + 1);
        let p = product_from(dims, i + 1);
        let o = offset_from(dims, layout, at, i + 1);
        let a = at[i];
        let d = dims[i] as int;
        assert(0 <= a * p + o < d * p) by (nonlinear_arith)
            requires
                0 <= a < d,
                0 <= o < p,
        ;
    }
}

proof fn lemma_offset_distinct(
    dims: Seq<i64>,
    layout: TensorLayout,
    at: Seq<int>,
    other: Seq<int>,
    i: int,
)
    requires
        layout != TensorLayout::NhwcPacked,
        inside(dims, at),
        inside(dims, other),
        0 <= i <= dims.len(),
        offset_from(dims, layout, at, i) == offset_from(dims, layout, other, i),
    ensures
        forall|j: int| i <= j < dims.len() ==> at[j] == other[j],
    decreases dims.len() - i,
{
    if i < dims.len() {
        lemma_offset_bound(dims, layout, at, i + 1);
        lemma_offset_bound(dims, layout, other, i + 1);
        let p = product_from(dims, i + 1);
        let o1 = offset_from(dims, layout, at, i + 1);
        let o2 = offset_from(dims, layout, other, i + 1);
        let a = at[i];
        let b = other[i];
        assert(a == b && o1 == o2) by (nonlinear_arith)
            requires
                a * p + o1 == b * p + o2,
                0 <= o1 < p,
                0 <= o2 < p,
        ;
        lemma_offset_distinct(dims, layout, at, other, i + 1);
    }
}

proof fn lemma_offset_local(
    dims: Seq<i64>,
    layout: TensorLayout,
    at: Seq<int>,
    other: Seq<int>,
    i: int,
)
    requires
        0 <= i <= dims.len(),
        forall|j: int| i <= j < dims.len() ==> at[j] == other[j],
    ensures
        offset_from(dims, layout, at, i) == offset_from(dims, layout, other, i),
    decreases dims.len() - i,
{
    if i < dims.len() {
        lemma_offset_local(dims, layout, at, other, i + 1);
    }
}

proof fn lemma_product_nonnegative(dims: Seq<i64>, i: int)
    requires
        forall|j: int| 0 <= j < dims.len() ==> 0 <= #[trigger] dims[j],
        0 <= i <= dims.len(),
    ensures
        0 <= product_from(dims, i),
    decreases dims.len() - i,
{
    if i < dims.len() {
        lemma_product_nonnegative(dims, i + 1);
        let d = dims[i] as int;
        let p = product_from(dims, i + 1);
        assert(0 <= d * p) by (nonlinear_arith)
            requires
                0 <= d,
                0 <= p,
        ;
    }
}

proof fn lemma_offset_reached(dims: Seq<i64>, layout: TensorLayout, o: int, i: int) -> (at: Seq<
    int,
>)
    requires
        layout != TensorLayout::NhwcPacked,
        forall|j: int| 0 <= j < dims.len() ==> 0 <= #[trigger] dims[j],
        0 <= i <= dims.len(),
        0 <= o < product_from(dims, i),
    ensures
        at.len() == dims.len(),
        forall|j: int| i <= j < dims.len() ==> 0 <= #[trigger] at[j] < dims[j],
        offset_from(dims, layout, at, i) == o,
    decreases dims.len() - i,
{
    if i == dims.len() {
        Seq::new(dims.len(), |j: int| 0)
    } else {
        lemma_product_nonnegative(dims, i + 1);
        let d = dims[i] as int;
        let p = product_from(dims, i + 1);
        assert(0 < p) by (nonlinear_arith)
            requires
                0 <= p,
                0 < d * p,
        ;
        let a = o / p;
        let rest = o % p;
        assert(a * p + rest == o && 0 <= rest < p && 0 <= a < d) by (nonlinear_arith)
            requires
                a == o / p,
                rest == o % p,
                0 < p,
                0 <= o < d * p,
        ;
        let inner = lemma_offset_reached(dims, layout, rest, i + 1);
        let at = inner.update(i, a);
        lemma_offset_local(dims, layout, at, inner, i + 1);
        at
    }
}

/// The dimensions with the channel moved to the end.
pub open spec fn channel_last(dims: Seq<i64>) -> Seq<i64> {
    seq![dims[0]] + dims.subrange(2, dims.len() as int) + seq![dims[1]]
}

proof fn lemma_channel_last_product(dims: Seq<i64>, i: int)
    requires
        dims.len() >= 3,
        2 <= i <= dims.len(),
    ensures
        product_from(channel_last(dims), i - 1) == dims[1] * product_from(dims, i),
    decreases dims.len() - i,
{
    let moved = channel_last(dims);
    if i == dims.len() {
        assert(moved[i - 1] == dims[1]);
        assert(product_from(moved, i) == 1);
        assert(product_from(dims, i) == 1);
    } else {
        lemma_channel_last_product(dims, i + 1);
        assert(moved[i - 1] == dims[i]);
        let c = dims[1] as int;
        let d = dims[i] as int;
        let p = product_from(dims, i + 1);
        assert(d * (c * p) == c * (d * p)) by (nonlinear_arith);
    }
}

/// A position with the channel moved to the end.
pub open spec fn position_channel_last(at: Seq<int>) -> Seq<int> {
    seq![at[0]] + at.subrange(2, at.len() as int) + seq![at[1]]
}

/// Packed channel-last strides are the row-major strides of the dimensions
/// with the channel moved to the end.
pub proof fn law_channel_last_is_row_major(dims: Seq<i64>)
    requires
        dims.len() >= 3,
    ensures
        ({
            let moved = channel_last(dims);
            &&& stride(dims, TensorLayout::NhwcPacked, 0) == stride(
                moved,
                TensorLayout::NchwPacked,
                0,
            )
            &&& stride(dims, TensorLayout::NhwcPacked, 1) == stride(
                moved,
                TensorLayout::NchwPacked,
                dims.len() - 1,
            )
            &&& forall|i: int|
                2 <= i < dims.len() ==> #[trigger] stride(dims, TensorLayout::NhwcPacked, i)
                    == stride(moved, TensorLayout::NchwPacked, i - 1)
        }),
{
    lemma_channel_last_product(dims, 2);
    assert forall|i: int| 2 <= i < dims.len() implies #[trigger] stride(
        dims,
        TensorLayout::NhwcPacked,
        i,
    ) == stride(channel_last(dims), TensorLayout::NchwPacked, i - 1) by {
        lemma_channel_last_product(dims, i + 1);
    }
}

proof fn lemma_moved_tail(dims: Seq<i64>, at: Seq<int>, i: int)
    requires
        dims.len() >= 3,
        at.len() == dims.len(),
        2 <= i <= dims.len(),
    ensures
        offset_from(
            channel_last(dims),
            TensorLayout::NchwPacked,
            position_channel_last(at),
            i - 1,
        ) == offset_from(dims, TensorLayout::NhwcPacked, at, i) + at[1],
    decreases dims.len() - i,
{
    let moved = channel_last(dims);
    let place = position_channel_last(at);
    law_channel_last_is_row_major(dims);
    if i == dims.len() {
        assert(offset_from(moved, TensorLayout::NchwPacked, place, i) == 0);
        assert(place[i - 1] == at[1]);
        assert(stride(moved, TensorLayout::NchwPacked, i - 1) == 1);
    } else {
        lemma_moved_tail(dims, at, i + 1);
        assert(place[i - 1] == at[i]);
    }
}

/// A channel-last tensor puts an element where a row-major one puts it once the
/// channel is moved to the end, and both have the same number of elements.
pub proof fn law_channel_last_offsets(dims: Seq<i64>, at: Seq<int>)
    requires
        dims.len() >= 3,
        at.len() == dims.len(),
    ensures
        offset(dims, TensorLayout::NhwcPacked, at) == offset(
            channel_last(dims),
            TensorLayout::NchwPacked,
            position_channel_last(at),
        ),
        product_from(channel_last(dims), 0) == product_from(dims, 0),
        inside(dims, at) <==> inside(channel_last(dims), position_channel_last(at)),
{
    let moved = channel_last(dims);
    let place = position_channel_last(at);
    law_channel_last_is_row_major(dims);
    lemma_moved_tail(dims, at, 2);
    lemma_channel_last_product(dims, 2);
    assert(offset_from(dims, TensorLayout::NhwcPacked, at, 1) == at[1] + offset_from(
        dims,
        TensorLayout::NhwcPacked,
        at,
        2,
    ));
    assert(product_from(dims, 1) == dims[1] * product_from(dims, 2));
    assert(moved.len() == dims.len() && place.len() == at.len());
    assert(moved[0] == dims[0] && place[0] == at[0]);
    assert(moved[dims.len() - 1] == dims[1] && place[dims.len() - 1] == at[1]);
    assert forall|i: int| 2 <= i < dims.len() implies #[trigger] moved[i - 1] == dims[i]
        && place[i - 1] == at[i] by {}
    if inside(dims, at) {
        assert forall|i: int| 0 <= i < moved.len() implies 0 <= #[trigger] place[i] < moved[i] by {
            if 0 < i < moved.len() - 1 {
                assert(moved[i] == dims[i + 1] && place[i] == at[i + 1]);
            }
        }
    }
    if inside(moved, place) {
        assert forall|i: int| 0 <= i < dims.len() implies 0 <= #[trigger] at[i] < dims[i] by {
            if 2 <= i {
                assert(moved[i - 1] == dims[i] && place[i - 1] == at[i]);
            }
        }
    }
}

/// Packed strides give every element an offset of its own, below the number of
/// elements, in every layout.
pub proof fn law_packed_offsets_distinct(
    dims: Seq<i64>,
    layout: TensorLayout,
    at: Seq<int>,
    other: Seq<int>,
)
    requires
        layout == TensorLayout::NhwcPacked ==> dims.len() == 0 || dims.len() >= 3,
        inside(dims, at),
        inside(dims, other),
    ensures
        0 <= offset(dims, layout, at) < product_from(dims, 0),
        offset(dims, layout, at) == offset(dims, layout, other) <==> at == other,
{
    if dims.len() == 0 {
        assert(at =~= other);
    } else if layout == TensorLayout::NhwcPacked {
        let moved = channel_last(dims);
        let (p, q) = (position_channel_last(at), position_channel_last(other));
        law_channel_last_offsets(dims, at);
        law_channel_last_offsets(dims, other);
        lemma_offset_bound(moved, TensorLayout::NchwPacked, p, 0);
        if offset(dims, layout, at) == offset(dims, layout, other) {
            lemma_offset_distinct(moved, TensorLayout::NchwPacked, p, q, 0);
            assert forall|i: int| 0 <= i < dims.len() implies at[i] == other[i] by {
                let n = dims.len();
                if i == 0 {
                    assert(p[0] == q[0]);
                } else if i == 1 {
                    assert(p[n - 1] == q[n - 1]);
                } else {
                    assert(p[i - 1] == q[i - 1]);
                }
            }
            assert(at =~= other);
        }
    } else {
        lemma_offset_bound(dims, layout, at, 0);
        if offset(dims, layout, at) == offset(dims, layout, other) {
            lemma_offset_distinct(dims, layout, at, other, 0);
            assert(at =~= other);
        }
    }
}

/// Packed strides leave no gap: every offset below the number of elements is
/// that of an element, in every layout.
pub proof fn law_packed_offsets_reached(dims: Seq<i64>, layout: TensorLayout, o: int)
    requires
        layout == TensorLayout::NhwcPacked ==> dims.len() == 0 || dims.len() >= 3,
        forall|i: int| 0 <= i < dims.len() ==> 0 <= #[trigger] dims[i],
        0 <= o < product_from(dims, 0),
    ensures
        exists|at: Seq<int>| #[trigger] inside(dims, at) && offset(dims, layout, at) == o,
{
    if layout == TensorLayout::NhwcPacked && dims.len() > 0 {
        let n = dims.len() as int;
        let moved = channel_last(dims);
        assert forall|i: int| 0 <= i < moved.len() implies 0 <= #[trigger] moved[i] by {
            if 0 < i < n - 1 {
                assert(moved[i] == dims[i + 1]);
            }
        }
        law_channel_last_offsets(dims, Seq::new(dims.len(), |i: int| 0));
        let place = lemma_offset_reached(moved, TensorLayout::NchwPacked, o, 0);
        let at = seq![place[0], place[n - 1]] + place.subrange(1, n - 1);
        assert(position_channel_last(at) =~= place);
        law_channel_last_offsets(dims, at);
        assert(inside(moved, place));
        assert(inside(dims, at));
    } else if dims.len() == 0 {
        let at = Seq::<int>::empty();
        assert(inside(dims, at));
    } else {
        let at = lemma_offset_reached(dims, layout, o, 0);
        assert(inside(dims, at));
    }
}

/// A tensor with packed strides keeps what it was made of, is aligned to sixteen
/// bytes and has memory of its own; taken as an intermediate result it changes in
/// that alone.
pub proof fn law_packed_tensor(
    uid: i64,
    dtype: DtypeTag,
    dims: Seq<i64>,
    layout: TensorLayout,
    t: TensorView,
)
    ensures
        ({
            let p = TensorView::packed(uid, dtype, dims, layout);
            &&& p.uid == uid
            &&& p.dtype == dtype
            &&& p.dims == dims
            &&& p.strides.len() == dims.len()
            &&& p.alignment == 16
            &&& !p.is_virtual
        }),
        t.virtualized().is_virtual,
        t.virtualized().uid == t.uid,
        t.virtualized().dtype == t.dtype,
        t.virtualized().dims == t.dims,
        t.virtualized().strides == t.strides,
        t.virtualized().alignment == t.alignment,
{
}

/// The element types are numbered in the order of their declaration.
pub proof fn law_tags_count_up()
    ensures
        DtypeTag::F32.spec_code() == 0,
        DtypeTag::F64.spec_code() == 1,
        DtypeTag::F16.spec_code() == 2,
        DtypeTag::Bf16.spec_code() == 3,
        DtypeTag::I8.spec_code() == 4,
        DtypeTag::I32.spec_code() == 5,
        DtypeTag::U8.spec_code() == 6,
{
}

/// The tags' names and cuDNN types are those of their own element type.
pub proof fn law_tag_names()
    ensures
        DtypeTag::F32.spec_name() == "f32"@ && DtypeTag::F32.spec_cudnn() is Float,
        DtypeTag::F64.spec_name() == "f64"@ && DtypeTag::F64.spec_cudnn() is Double,
        DtypeTag::F16.spec_name() == "f16"@ && DtypeTag::F16.spec_cudnn() is Half,
        DtypeTag::Bf16.spec_name() == "bf16"@ && DtypeTag::Bf16.spec_cudnn() is Bfloat16,
        DtypeTag::I8.spec_name() == "i8"@ && DtypeTag::I8.spec_cudnn() is Int8,
        DtypeTag::I32.spec_name() == "i32"@ && DtypeTag::I32.spec_cudnn() is Int32,
        DtypeTag::U8.spec_name() == "u8"@ && DtypeTag::U8.spec_cudnn() is Uint8,
{
}

/// The strides of a packed tensor are one per dimension. Channel second, the last
/// dimension has stride one, and each other one steps over the whole of the next.
pub proof fn law_strides_step_over_the_next(dims: Seq<i64>, layout: TensorLayout, i: int)
    requires
        packable(dims, layout),
        0 <= i < dims.len(),
    ensures
        strides_of(dims, layout).len() == dims.len(),
        layout != TensorLayout::NhwcPacked && i == dims.len() - 1 ==> strides_of(dims, layout)[i]
            == 1,
        layout != TensorLayout::NhwcPacked && i < dims.len() - 1 ==> strides_of(dims, layout)[i]
            == dims[i + 1] * strides_of(dims, layout)[i + 1],
        layout == TensorLayout::NhwcPacked ==> strides_of(dims, layout)[1] == 1,
        layout == TensorLayout::NhwcPacked ==> strides_of(dims, layout)[dims.len() - 1] == dims[1],
        layout == TensorLayout::NhwcPacked && 2 <= i < dims.len() - 1 ==> strides_of(
            dims,
            layout,
        )[i] == strides_of(dims, layout)[i + 1] * dims[i + 1],
        layout == TensorLayout::NhwcPacked ==> strides_of(dims, layout)[0] == strides_of(
            dims,
            layout,
        )[2] * dims[2],
{
    let n = dims.len() as int;
    assert(stride(dims, layout, i) == strides_of(dims, layout)[i]);
    if layout == TensorLayout::NhwcPacked {
        assert(product_from(dims, n) == 1);
        assert(stride(dims, layout, n - 1) == dims[1]) by (nonlinear_arith)
            requires
                stride(dims, layout, n - 1) == dims[1] * product_from(dims, n),
                product_from(dims, n) == 1,
        ;
        assert(stride(dims, layout, n - 1) == strides_of(dims, layout)[n - 1]);
        assert(stride(dims, layout, 0) == strides_of(dims, layout)[0]);
        assert(stride(dims, layout, 1) == strides_of(dims, layout)[1]);
        assert(stride(dims, layout, 2) == strides_of(dims, layout)[2]);
        lemma_channel_last_step(dims, 2);
        if 2 <= i < n - 1 {
            lemma_channel_last_step(dims, i + 1);
            assert(stride(dims, layout, i + 1) == strides_of(dims, layout)[i + 1]);
        }
    } else if i < n - 1 {
        assert(stride(dims, layout, i + 1) == strides_of(dims, layout)[i + 1]);
        assert(product_from(dims, i + 1) == dims[i + 1] * product_from(dims, i + 2));
    }
}

} // verus!
