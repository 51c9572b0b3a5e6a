//! Recurrent networks and their gradients.

use vstd::prelude::*;

use crate::dtype::{CudnnSupported, F32};
use crate::error;
use crate::error::GpuError;
use crate::gpu_ref::GpuRef;
use crate::kernel::cudnn::conv;
use crate::kernel::cudnn::conv::dtype_tag;
use crate::kernel::cudnn::dispatch;
use crate::kernel::cudnn::dispatch::{not_available, CudnnDispatch};
use crate::kernel::cudnn::graph;
use crate::kernel::cudnn::graph::{GraphView, OperationGraphSpec};
use crate::kernel::cudnn::tensor;
use crate::kernel::cudnn::tensor::{DtypeTag, TensorLayout, TensorSpec, TensorView};

verus! {

/// Cell of a recurrent network.
#[derive(Debug, Clone, Copy, PartialEq, Eq, Hash, Structural)]
pub enum RnnMode {
    Rnn,
    RnnTanh,
    Lstm,
    Gru,
}

impl RnnMode {
    /// Name of the cell.
    pub open spec fn spec_op_kind(self) -> Seq<char> {
        match self {
            RnnMode::Rnn => "rnn_relu"@,
            RnnMode::RnnTanh => "rnn_tanh"@,
            RnnMode::Lstm => "lstm"@,
            RnnMode::Gru => "gru"@,
        }
    }

    /// Name of the cell.
    pub fn op_kind(self) -> (s: &'static str)
        ensures
            s@ == self.spec_op_kind(),
    {
        match self {
            RnnMode::Rnn => "rnn_relu",
            RnnMode::RnnTanh => "rnn_tanh",
            RnnMode::Lstm => "lstm",
            RnnMode::Gru => "gru",
        }
    }

    /// Number of gates in a cell.
    pub open spec fn spec_num_gates(self) -> u32 {
        match self {
            RnnMode::Rnn | RnnMode::RnnTanh => 1,
            RnnMode::Lstm => 4,
            RnnMode::Gru => 3,
        }
    }

    /// Number of gates in a cell.
    pub fn num_gates(self) -> (n: u32)
        ensures
            n == self.spec_num_gates(),
    {
        match self {
            RnnMode::Rnn | RnnMode::RnnTanh => 1,
            RnnMode::Lstm => 4,
            RnnMode::Gru => 3,
        }
    }

    /// Whether the cell keeps a state besides its output.
    pub fn has_cell_state(self) -> (b: bool)
        ensures
            b == (self == RnnMode::Lstm),
    {
        match self {
            RnnMode::Lstm => true,
            _ => false,
        }
    }
}

/// Direction of a recurrent network.
#[derive(Debug, Clone, Copy, PartialEq, Eq, Hash, Structural)]
pub enum RnnDirection {
    Unidirectional,
    Bidirectional,
}

impl RnnDirection {
    /// Number of directions.
    pub open spec fn spec_factor(self) -> u32 {
        match self {
            RnnDirection::Unidirectional => 1,
            RnnDirection::Bidirectional => 2,
        }
    }

    /// Number of directions.
    pub fn factor(self) -> (n: u32)
        ensures
            n == self.spec_factor(),
    {
        match self {
            RnnDirection::Unidirectional => 1,
            RnnDirection::Bidirectional => 2,
        }
    }
}

/// Shape of a recurrent network.
#[derive(Debug, Clone, Copy, PartialEq, Eq, Structural)]
pub struct RnnParams {
    pub mode: RnnMode,
    pub direction: RnnDirection,
    pub num_layers: u32,
    pub input_size: i64,
    pub hidden_size: i64,
    pub seq_length: i64,
    pub batch_size: i64,
    pub dropout: F32,
}

/// The integer is representable in 64 bits.
pub open spec fn in_range(v: int) -> bool {
    i64::MIN <= v <= i64::MAX
}

impl RnnParams {
    /// Network without dropout.
    pub fn new(
        mode: RnnMode,
        direction: RnnDirection,
        num_layers: u32,
        input_size: i64,
        hidden_size: i64,
        seq_length: i64,
        batch_size: i64,
    ) -> (p: RnnParams)
        ensures
            p == (RnnParams {
                mode,
                direction,
                num_layers,
                input_size,
                hidden_size,
                seq_length,
                batch_size,
                dropout: F32(0),
            }),
    {
        RnnParams {
            mode,
            direction,
            num_layers,
            input_size,
            hidden_size,
            seq_length,
            batch_size,
            dropout: F32(0),
        }
    }

    /// The network with this dropout.
    pub fn with_dropout(self, d: F32) -> (p: RnnParams)
        ensures
            p == (RnnParams { dropout: d, ..self }),
    {
        RnnParams { dropout: d, ..self }
    }

    /// Features of an output.
    pub open spec fn spec_output_size(self) -> int {
        self.hidden_size * self.direction.spec_factor()
    }

    /// Features of an output.
    pub fn output_size(&self) -> (n: i64)
        requires
            in_range(self.spec_output_size()),
        ensures
            n == self.spec_output_size(),
    {
        self.hidden_size * self.direction.factor() as i64
    }

    /// Dimensions of the inputs.
    pub open spec fn x_dims(self) -> Seq<i64> {
        seq![self.seq_length, self.batch_size, self.input_size]
    }

    /// Dimensions of the hidden states.
    pub open spec fn h_dims(self) -> Seq<i64> {
        seq![
            (self.num_layers * self.direction.spec_factor()) as i64,
            self.batch_size,
            self.hidden_size,
        ]
    }

    /// Dimensions of the outputs.
    pub open spec fn y_dims(self) -> Seq<i64> {
        seq![self.seq_length, self.batch_size, self.spec_output_size() as i64]
    }

    /// Extent of the packed weights.
    pub open spec fn weight_dim(self) -> int {
        self.mode.spec_num_gates() * self.hidden_size * (self.input_size + self.hidden_size + 2)
            * self.num_layers * self.direction.spec_factor()
    }

    /// The sizes that the graph holds are representable, step by step.
    pub open spec fn sizes_fit(self) -> bool {
        &&& in_range(self.spec_output_size())
        &&& in_range(self.input_size + self.hidden_size)
        &&& in_range(self.input_size + self.hidden_size + 2)
        &&& in_range(self.mode.spec_num_gates() * self.hidden_size)
        &&& in_range(
            self.mode.spec_num_gates() * self.hidden_size * (self.input_size + self.hidden_size + 2),
        )
        &&& in_range(
            self.mode.spec_num_gates() * self.hidden_size * (self.input_size + self.hidden_size + 2)
                * self.num_layers,
        )
        &&& in_range(self.weight_dim())
    }

    fn hidden_dims(&self) -> (d: Vec<i64>)
        ensures
            d@ == self.h_dims(),
    {
        assert(0 <= self.num_layers * self.direction.spec_factor() <= 0x2_0000_0000)
            by (nonlinear_arith)
            requires
                0 <= self.num_layers <= 0xffff_ffff,
                1 <= self.direction.spec_factor() <= 2,
        ;
        let states: i64 = self.num_layers as i64 * self.direction.factor() as i64;
        let d = vec![states, self.batch_size, self.hidden_size];
        assert(d@ =~= self.h_dims());
        d
    }
}

/// Graph of a recurrent network, for the plan cache: its tensors, without
/// operations.
pub open spec fn rnn_fwd_graph(dtype: DtypeTag, p: RnnParams, layout: TensorLayout) -> GraphView {
    let states = GraphView::empty("rnn_fwd"@).with_tensor(
        TensorView::packed(1, dtype, p.x_dims(), layout),
    ).with_tensor(
        TensorView::packed(2, dtype, p.h_dims(), layout),
    ).with_tensor(
        TensorView::packed(3, dtype, p.y_dims(), layout),
    ).with_tensor(
        TensorView::packed(4, dtype, p.h_dims(), layout),
    );
    let cells = if p.mode == RnnMode::Lstm {
        states.with_tensor(
            TensorView::packed(5, dtype, p.h_dims(), layout),
        ).with_tensor(
            TensorView::packed(6, dtype, p.h_dims(), layout),
        )
    } else {
        states
    };
    cells.with_tensor(TensorView::packed(99, dtype, seq![p.weight_dim() as i64], layout))
}

/// Graph of a recurrent network, for the plan cache: its tensors, without
/// operations. The weights have one dimension, so a channel-last layout is
/// left out.
pub fn build_rnn_fwd_spec(dtype: DtypeTag, p: &RnnParams, layout: TensorLayout) -> (g:
    OperationGraphSpec)
    requires
        layout != TensorLayout::NhwcPacked,
        p.sizes_fit(),
        tensor::packable(p.x_dims(), layout),
        tensor::packable(p.h_dims(), layout),
        tensor::packable(p.y_dims(), layout),
    ensures
        g@ == rnn_fwd_graph(dtype, *p, layout),
{
    let mut g = OperationGraphSpec::new("rnn_fwd");
    let x_dims = vec![p.seq_length, p.batch_size, p.input_size];
    assert(x_dims@ =~= p.x_dims());
    let y_dims = vec![p.seq_length, p.batch_size, p.output_size()];
    assert(y_dims@ =~= p.y_dims());
    g.add_tensor(TensorSpec::new(1, dtype, x_dims, layout));
    g.add_tensor(TensorSpec::new(2, dtype, p.hidden_dims(), layout));
    g.add_tensor(TensorSpec::new(3, dtype, y_dims, layout));
    g.add_tensor(TensorSpec::new(4, dtype, p.hidden_dims(), layout));
    if p.mode.has_cell_state() {
        g.add_tensor(TensorSpec::new(5, dtype, p.hidden_dims(), layout));
        g.add_tensor(TensorSpec::new(6, dtype, p.hidden_dims(), layout));
    }
    let weight_dim: i64 = p.mode.num_gates() as i64 * p.hidden_size * (p.input_size + p.hidden_size
        + 2) * p.num_layers as i64 * p.direction.factor() as i64;
    let w_dims = vec![weight_dim];
    assert(w_dims@ =~= seq![p.weight_dim() as i64]);
    proof {
        assert(tensor::stride(w_dims@, layout, 0) == 1);
        assert(tensor::packable(w_dims@, layout));
    }
    g.add_tensor(TensorSpec::new(99, dtype, w_dims, layout));
    g
}

/// Recurrent network.
pub struct RnnFwdRequest<T: CudnnSupported> {
    pub x: GpuRef<T>,
    pub h_in: GpuRef<T>,
    pub c_in: Option<GpuRef<T>>,
    pub weights: GpuRef<T>,
    pub y: GpuRef<T>,
    pub h_out: GpuRef<T>,
    pub c_out: Option<GpuRef<T>>,
    pub layout: TensorLayout,
    pub params: RnnParams,
    pub reply: u64,
}

impl<T: CudnnSupported> RnnFwdRequest<T> {
    /// Graph of the request.
    pub fn graph_spec(&self) -> (g: OperationGraphSpec)
        requires
            conv::spec_tag(T::spec_element()) is Some,
            self.layout != TensorLayout::NhwcPacked,
            self.params.sizes_fit(),
            tensor::packable(self.params.x_dims(), self.layout),
            tensor::packable(self.params.h_dims(), self.layout),
            tensor::packable(self.params.y_dims(), self.layout),
        ensures
            g@ == rnn_fwd_graph(conv::spec_tag(T::spec_element())->0, self.params, self.layout),
    {
        build_rnn_fwd_spec(dtype_tag::<T>(), &self.params, self.layout)
    }
}

impl<T: CudnnSupported> CudnnDispatch for RnnFwdRequest<T> {
    fn dtype_name(&self) -> (s: &'static str)
        ensures
            s@ == T::spec_element().spec_name(),
    {
        T::name()
    }

    fn op_kind(&self) -> (s: &'static str)
        ensures
            s@ == match self.params.mode {
                RnnMode::Rnn | RnnMode::RnnTanh => "rnn_fwd"@,
                RnnMode::Lstm => "lstm_fwd"@,
                RnnMode::Gru => "gru_fwd"@,
            },
    {
        match self.params.mode {
            RnnMode::Rnn | RnnMode::RnnTanh => "rnn_fwd",
            RnnMode::Lstm => "lstm_fwd",
            RnnMode::Gru => "gru_fwd",
        }
    }

    fn dispatch(&self) -> (r: Result<(), GpuError>)
        ensures
            error::outcome(r) == dispatch::unavailable(
                "RnnFwdRequest dispatch requires the v8 RNN API path; skeleton entry point only"@,
            ),
    {
        not_available(
            "RnnFwdRequest dispatch requires the v8 RNN API path; skeleton entry point only",
        )
    }
}

/// Gradients of a recurrent network.
pub struct RnnBwdRequest<T: CudnnSupported> {
    pub x: GpuRef<T>,
    pub y: GpuRef<T>,
    pub dy: GpuRef<T>,
    pub h_in: GpuRef<T>,
    pub c_in: Option<GpuRef<T>>,
    pub h_out: GpuRef<T>,
    pub c_out: Option<GpuRef<T>>,
    pub dh_out: GpuRef<T>,
    pub dc_out: Option<GpuRef<T>>,
    pub weights: GpuRef<T>,
    pub dx: GpuRef<T>,
    pub dh_in: GpuRef<T>,
    pub dc_in: Option<GpuRef<T>>,
    pub dweights: GpuRef<T>,
    pub layout: TensorLayout,
    pub params: RnnParams,
    pub reply: u64,
}

impl<T: CudnnSupported> CudnnDispatch for RnnBwdRequest<T> {
    fn dtype_name(&self) -> (s: &'static str)
        ensures
            s@ == T::spec_element().spec_name(),
    {
        T::name()
    }

    fn op_kind(&self) -> (s: &'static str)
        ensures
            s@ == match self.params.mode {
                RnnMode::Rnn | RnnMode::RnnTanh => "rnn_bwd"@,
                RnnMode::Lstm => "lstm_bwd"@,
                RnnMode::Gru => "gru_bwd"@,
            },
    {
        match self.params.mode {
            RnnMode::Rnn | RnnMode::RnnTanh => "rnn_bwd",
            RnnMode::Lstm => "lstm_bwd",
            RnnMode::Gru => "gru_bwd",
        }
    }

    fn dispatch(&self) -> (r: Result<(), GpuError>)
        ensures
            error::outcome(r) == dispatch::unavailable(
                "RnnBwdRequest dispatch requires the v8 RNN API path; skeleton entry point only"@,
            ),
    {
        not_available(
            "RnnBwdRequest dispatch requires the v8 RNN API path; skeleton entry point only",
        )
    }
}

/// The graph of a recurrent network names no tensor but its own: it has no
/// operations.
pub proof fn law_rnn_graph_names_own_tensors(dtype: DtypeTag, p: RnnParams, layout: TensorLayout)
    ensures
        rnn_fwd_graph(dtype, p, layout).names_own_tensors(),
{
}

/// The graph of a recurrent network lists its inputs, hidden states before,
/// outputs and hidden states behind, then the two cell states where the cell has
/// them, and last the packed weights. There is a hidden state per layer and
/// direction, and both directions' features stand side by side in an output.
pub proof fn law_rnn_fwd_graph(dtype: DtypeTag, p: RnnParams, layout: TensorLayout)
    requires
        p.sizes_fit(),
    ensures
        ({
            let g = rnn_fwd_graph(dtype, p, layout);
            let directions: int = if p.direction is Bidirectional {
                2
            } else {
                1
            };
            let inputs = seq![p.seq_length, p.batch_size, p.input_size];
            let hidden = seq![(p.num_layers * directions) as i64, p.batch_size, p.hidden_size];
            let outputs = seq![p.seq_length, p.batch_size, (p.hidden_size * directions) as i64];
            let cells: int = if p.mode is Lstm {
                2
            } else {
                0
            };
            &&& g.name == "rnn_fwd"@
            &&& g.ops.len() == 0
            &&& g.tensors.len() == 5 + cells
            &&& graph::lists_tensor(g, 0, dtype, inputs, layout, false)
            &&& graph::lists_tensor(g, 1, dtype, hidden, layout, false)
            &&& graph::lists_tensor(g, 2, dtype, outputs, layout, false)
            &&& graph::lists_tensor(g, 3, dtype, hidden, layout, false)
            &&& p.mode is Lstm ==> graph::lists_tensor(g, 4, dtype, hidden, layout, false)
                && graph::lists_tensor(g, 5, dtype, hidden, layout, false)
            &&& g.tensors.last().uid == 99
            &&& g.tensors.last().dtype == dtype
            &&& g.tensors.last().dims == seq![p.weight_dim() as i64]
            &&& p.hidden_size * directions == p.spec_output_size()
        }),
{
}

/// A cell has one gate, but an LSTM has four and a GRU three; each gate of a layer
/// and direction has a weight per input and hidden feature and two biases.
pub proof fn law_rnn_weights(p: RnnParams)
    ensures
        ({
            let gates: int = match p.mode {
                RnnMode::Lstm => 4,
                RnnMode::Gru => 3,
                _ => 1,
            };
            let directions: int = if p.direction is Bidirectional {
                2
            } else {
                1
            };
            p.weight_dim() == gates * p.hidden_size * (p.input_size + p.hidden_size + 2)
                * p.num_layers * directions
        }),
        RnnMode::Rnn.spec_op_kind() == "rnn_relu"@,
        RnnMode::RnnTanh.spec_op_kind() == "rnn_tanh"@,
        RnnMode::Lstm.spec_op_kind() == "lstm"@,
        RnnMode::Gru.spec_op_kind() == "gru"@,
{
}

} // verus!
