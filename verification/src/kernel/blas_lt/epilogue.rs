//! [`Epilogue`]: the operations that cuBLASLt fuses behind a matrix product.

use vstd::prelude::*;

verus! {

/// Operation fused behind a matrix product.
#[derive(Debug, Clone, Copy, PartialEq, Eq, Hash, Structural)]
pub enum Epilogue {
    /// Nothing.
    Identity,
    Relu,
    /// Bias addition only.
    Bias,
    ReluBias,
    /// ReLU that stores its mask for the backward pass.
    ReluAux,
    ReluAuxBias,
    Gelu,
    /// GeLU that stores its input for the backward pass.
    GeluAux,
    GeluBias,
    GeluAuxBias,
    /// ReLU backward.
    DRelu,
    /// ReLU backward with the bias gradient.
    DReluBgrad,
    /// GeLU backward.
    DGelu,
    /// GeLU backward with the bias gradient.
    DGeluBgrad,
    /// Bias gradient along the rows, without an activation.
    BgradA,
    /// Bias gradient along the columns, without an activation.
    BgradB,
}

/// `cublasLtEpilogue_t`.
#[derive(Debug, Clone, Copy, PartialEq, Eq, Hash, Structural)]
pub enum CublasLtEpilogue {
    Default,
    Relu,
    Bias,
    ReluBias,
    ReluAux,
    ReluAuxBias,
    Gelu,
    GeluAux,
    GeluBias,
    GeluAuxBias,
    DReluBgrad,
    DGeluBgrad,
    BgradA,
    BgradB,
}

/// Activation of cuBLASLt's safe interface.
#[derive(Debug, Clone, Copy, PartialEq, Eq, Structural)]
pub enum Activation {
    Relu,
    Gelu,
}

impl Epilogue {
    /// The library's epilogue. The backward variants without a bias gradient
    /// map to the variants with one, whose extra output the caller ignores.
    pub open spec fn spec_to_cublas(self) -> CublasLtEpilogue {
        match self {
            Epilogue::Identity => CublasLtEpilogue::Default,
            Epilogue::Relu => CublasLtEpilogue::Relu,
            Epilogue::Bias => CublasLtEpilogue::Bias,
            Epilogue::ReluBias => CublasLtEpilogue::ReluBias,
            Epilogue::ReluAux => CublasLtEpilogue::ReluAux,
            Epilogue::ReluAuxBias => CublasLtEpilogue::ReluAuxBias,
            Epilogue::Gelu => CublasLtEpilogue::Gelu,
            Epilogue::GeluAux => CublasLtEpilogue::GeluAux,
            Epilogue::GeluBias => CublasLtEpilogue::GeluBias,
            Epilogue::GeluAuxBias => CublasLtEpilogue::GeluAuxBias,
            Epilogue::DRelu => CublasLtEpilogue::DReluBgrad,
            Epilogue::DReluBgrad => CublasLtEpilogue::DReluBgrad,
            Epilogue::DGelu => CublasLtEpilogue::DGeluBgrad,
            Epilogue::DGeluBgrad => CublasLtEpilogue::DGeluBgrad,
            Epilogue::BgradA => CublasLtEpilogue::BgradA,
            Epilogue::BgradB => CublasLtEpilogue::BgradB,
        }
    }

    /// The library's epilogue.
    pub fn to_cublas(self) -> (e: CublasLtEpilogue)
        ensures
            e == self.spec_to_cublas(),
    {
        match self {
            Epilogue::Identity => CublasLtEpilogue::Default,
            Epilogue::Relu => CublasLtEpilogue::Relu,
            Epilogue::Bias => CublasLtEpilogue::Bias,
            Epilogue::ReluBias => CublasLtEpilogue::ReluBias,
            Epilogue::ReluAux => CublasLtEpilogue::ReluAux,
            Epilogue::ReluAuxBias => CublasLtEpilogue::ReluAuxBias,
            Epilogue::Gelu => CublasLtEpilogue::Gelu,
            Epilogue::GeluAux => CublasLtEpilogue::GeluAux,
            Epilogue::GeluBias => CublasLtEpilogue::GeluBias,
            Epilogue::GeluAuxBias => CublasLtEpilogue::GeluAuxBias,
            Epilogue::DRelu | Epilogue::DReluBgrad => CublasLtEpilogue::DReluBgrad,
            Epilogue::DGelu | Epilogue::DGeluBgrad => CublasLtEpilogue::DGeluBgrad,
            Epilogue::BgradA => CublasLtEpilogue::BgradA,
            Epilogue::BgradB => CublasLtEpilogue::BgradB,
        }
    }

    /// The epilogue adds a bias vector.
    pub open spec fn spec_uses_bias(self) -> bool {
        self is Bias || self is ReluBias || self is ReluAuxBias || self is GeluBias
            || self is GeluAuxBias
    }

    /// Whether the epilogue adds a bias vector.
    pub fn uses_bias(self) -> (b: bool)
        ensures
            b == self.spec_uses_bias(),
    {
        match self {
            Epilogue::Bias
            | Epilogue::ReluBias
            | Epilogue::ReluAuxBias
            | Epilogue::GeluBias
            | Epilogue::GeluAuxBias => true,
            _ => false,
        }
    }

    /// The epilogue stores or consumes an auxiliary tensor.
    pub open spec fn spec_uses_aux(self) -> bool {
        self is ReluAux || self is ReluAuxBias || self is GeluAux || self is GeluAuxBias
            || self is DRelu || self is DReluBgrad || self is DGelu || self is DGeluBgrad
    }

    /// Whether the epilogue stores or consumes an auxiliary tensor.
    pub fn uses_aux(self) -> (b: bool)
        ensures
            b == self.spec_uses_aux(),
    {
        match self {
            Epilogue::ReluAux
            | Epilogue::ReluAuxBias
            | Epilogue::GeluAux
            | Epilogue::GeluAuxBias
            | Epilogue::DRelu
            | Epilogue::DReluBgrad
            | Epilogue::DGelu
            | Epilogue::DGeluBgrad => true,
            _ => false,
        }
    }

    /// The epilogue produces a bias gradient as a side output.
    pub open spec fn spec_produces_bias_grad(self) -> bool {
        self is BgradA || self is BgradB || self is DReluBgrad || self is DGeluBgrad
    }

    /// Whether the epilogue produces a bias gradient as a side output.
    pub fn produces_bias_grad(self) -> (b: bool)
        ensures
            b == self.spec_produces_bias_grad(),
    {
        match self {
            Epilogue::BgradA | Epilogue::BgradB | Epilogue::DReluBgrad | Epilogue::DGeluBgrad => true,
            _ => false,
        }
    }

    /// The activation of the safe interface that the epilogue asks for. What
    /// the safe interface cannot do besides is left out.
    pub open spec fn spec_activation(self) -> Option<Activation> {
        match self {
            Epilogue::Relu | Epilogue::ReluBias | Epilogue::ReluAux | Epilogue::ReluAuxBias => Some(
                Activation::Relu,
            ),
            Epilogue::Gelu | Epilogue::GeluBias | Epilogue::GeluAux | Epilogue::GeluAuxBias => Some(
                Activation::Gelu,
            ),
            _ => None,
        }
    }

    /// The activation of the safe interface that the epilogue asks for.
    pub fn activation(self) -> (a: Option<Activation>)
        ensures
            a == self.spec_activation(),
    {
        match self {
            Epilogue::Relu | Epilogue::ReluBias | Epilogue::ReluAux | Epilogue::ReluAuxBias => Some(
                Activation::Relu,
            ),
            Epilogue::Gelu | Epilogue::GeluBias | Epilogue::GeluAux | Epilogue::GeluAuxBias => Some(
                Activation::Gelu,
            ),
            _ => None,
        }
    }

    /// The variant's number in declaration order.
    pub open spec fn spec_code(self) -> u32 {
        match self {
            Epilogue::Identity => 0,
            Epilogue::Relu => 1,
            Epilogue::Bias => 2,
            Epilogue::ReluBias => 3,
            Epilogue::ReluAux => 4,
            Epilogue::ReluAuxBias => 5,
            Epilogue::Gelu => 6,
            Epilogue::GeluAux => 7,
            Epilogue::GeluBias => 8,
            Epilogue::GeluAuxBias => 9,
            Epilogue::DRelu => 10,
            Epilogue::DReluBgrad => 11,
            Epilogue::DGelu => 12,
            Epilogue::DGeluBgrad => 13,
            Epilogue::BgradA => 14,
            Epilogue::BgradB => 15,
        }
    }

    /// The variant's number in declaration order.
    pub fn code(self) -> (c: u32)
        ensures
            c == self.spec_code(),
    {
        match self {
            Epilogue::Identity => 0,
            Epilogue::Relu => 1,
            Epilogue::Bias => 2,
            Epilogue::ReluBias => 3,
            Epilogue::ReluAux => 4,
            Epilogue::ReluAuxBias => 5,
            Epilogue::Gelu => 6,
            Epilogue::GeluAux => 7,
            Epilogue::GeluBias => 8,
            Epilogue::GeluAuxBias => 9,
            Epilogue::DRelu => 10,
            Epilogue::DReluBgrad => 11,
            Epilogue::DGelu => 12,
            Epilogue::DGeluBgrad => 13,
            Epilogue::BgradA => 14,
            Epilogue::BgradB => 15,
        }
    }
}

/// Every epilogue but the plain one has an effect that the library's default
/// has not, and only the two backward pairs share a library epilogue.
pub proof fn law_epilogue_mapping(a: Epilogue, b: Epilogue)
    ensures
        a.spec_to_cublas() == CublasLtEpilogue::Default <==> a == Epilogue::Identity,
        a.spec_to_cublas() == b.spec_to_cublas() && a != b ==> ((a is DRelu || a is DReluBgrad) && (
        b is DRelu || b is DReluBgrad)) || ((a is DGelu || a is DGeluBgrad) && (b is DGelu
            || b is DGeluBgrad)),
        a.spec_code() == b.spec_code() <==> a == b,
{
}

/// What a library epilogue does: the activation that it applies or takes the
/// gradient of, and whether it adds a bias, has to do with an auxiliary tensor or
/// gives a bias gradient.
pub struct Effect {
    pub activation: Option<Activation>,
    pub backward: bool,
    pub bias: bool,
    pub aux: bool,
    pub bias_grad: bool,
}

/// What a library epilogue does.
pub open spec fn effect_of(e: CublasLtEpilogue) -> Effect {
    let relu = Some(Activation::Relu);
    let gelu = Some(Activation::Gelu);
    let plain = Effect {
        activation: None,
        backward: false,
        bias: false,
        aux: false,
        bias_grad: false,
    };
    match e {
        CublasLtEpilogue::Default => plain,
        CublasLtEpilogue::Relu => Effect { activation: relu, ..plain },
        CublasLtEpilogue::Bias => Effect { bias: true, ..plain },
        CublasLtEpilogue::ReluBias => Effect { activation: relu, bias: true, ..plain },
        CublasLtEpilogue::ReluAux => Effect { activation: relu, aux: true, ..plain },
        CublasLtEpilogue::ReluAuxBias => Effect {
            activation: relu,
            aux: true,
            bias: true,
            ..plain
        },
        CublasLtEpilogue::Gelu => Effect { activation: gelu, ..plain },
        CublasLtEpilogue::GeluAux => Effect { activation: gelu, aux: true, ..plain },
        CublasLtEpilogue::GeluBias => Effect { activation: gelu, bias: true, ..plain },
        CublasLtEpilogue::GeluAuxBias => Effect {
            activation: gelu,
            aux: true,
            bias: true,
            ..plain
        },
        CublasLtEpilogue::DReluBgrad => Effect {
            activation: relu,
            backward: true,
            aux: true,
            bias_grad: true,
            ..plain
        },
        CublasLtEpilogue::DGeluBgrad => Effect {
            activation: gelu,
            backward: true,
            aux: true,
            bias_grad: true,
            ..plain
        },
        CublasLtEpilogue::BgradA => Effect { bias_grad: true, ..plain },
        CublasLtEpilogue::BgradB => Effect { bias_grad: true, ..plain },
    }
}

/// What an epilogue says of itself is what its library epilogue does: it adds a
/// bias, or has to do with an auxiliary tensor, exactly when the library does so,
/// and its activation is the one that the library applies forward. A bias gradient
/// that it gives is one that the library computes.
pub proof fn law_epilogue_does_what_it_says(e: Epilogue)
    ensures
        ({
            let effect = effect_of(e.spec_to_cublas());
            &&& e.spec_uses_bias() == effect.bias
            &&& e.spec_uses_aux() == effect.aux
            &&& e.spec_activation() == (if effect.backward {
                None
            } else {
                effect.activation
            })
            &&& e.spec_produces_bias_grad() == (effect.bias_grad && !(e is DRelu)
                && !(e is DGelu))
        }),
        e is BgradA <==> e.spec_to_cublas() is BgradA,
        e is BgradB <==> e.spec_to_cublas() is BgradB,
{
}

/// Every epilogue is the library epilogue of its own name; a backward one without
/// a bias gradient is taken with it.
pub proof fn law_epilogue_names()
    ensures
        Epilogue::Identity.spec_to_cublas() is Default,
        Epilogue::Identity.spec_code() == 0,
        Epilogue::Relu.spec_to_cublas() is Relu,
        Epilogue::Relu.spec_code() == 1,
        Epilogue::Bias.spec_to_cublas() is Bias,
        Epilogue::Bias.spec_code() == 2,
        Epilogue::ReluBias.spec_to_cublas() is ReluBias,
        Epilogue::ReluBias.spec_code() == 3,
        Epilogue::ReluAux.spec_to_cublas() is ReluAux,
        Epilogue::ReluAux.spec_code() == 4,
        Epilogue::ReluAuxBias.spec_to_cublas() is ReluAuxBias,
        Epilogue::ReluAuxBias.spec_code() == 5,
        Epilogue::Gelu.spec_to_cublas() is Gelu,
        Epilogue::Gelu.spec_code() == 6,
        Epilogue::GeluAux.spec_to_cublas() is GeluAux,
        Epilogue::GeluAux.spec_code() == 7,
        Epilogue::GeluBias.spec_to_cublas() is GeluBias,
        Epilogue::GeluBias.spec_code() == 8,
        Epilogue::GeluAuxBias.spec_to_cublas() is GeluAuxBias,
        Epilogue::GeluAuxBias.spec_code() == 9,
        Epilogue::DRelu.spec_to_cublas() is DReluBgrad,
        Epilogue::DRelu.spec_code() == 10,
        Epilogue::DReluBgrad.spec_to_cublas() is DReluBgrad,
        Epilogue::DReluBgrad.spec_code() == 11,
        Epilogue::DGelu.spec_to_cublas() is DGeluBgrad,
        Epilogue::DGelu.spec_code() == 12,
        Epilogue::DGeluBgrad.spec_to_cublas() is DGeluBgrad,
        Epilogue::DGeluBgrad.spec_code() == 13,
        Epilogue::BgradA.spec_to_cublas() is BgradA,
        Epilogue::BgradA.spec_code() == 14,
        Epilogue::BgradB.spec_to_cublas() is BgradB,
        Epilogue::BgradB.spec_code() == 15,
{
}

} // verus!
