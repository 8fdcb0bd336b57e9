//! One compute pass, described completely before anything reaches the
//! device.

use crate::buffer::Buffer;
use crate::error::MpsError;
use crate::grid::ThreadGrid;
use crate::kernel::Kernel;
use vstd::prelude::*;

verus! {

/// What is bound to one buffer slot of a kernel.
#[derive(Clone, Copy, Debug, PartialEq, Eq, Structural)]
pub enum Binding {
    /// The operand of the pass with this number, counted from zero.
    Operand(usize),
    /// The scratch buffer that receives the result.
    Output,
    /// A buffer of one 32-bit word that holds this value.
    Word(u32),
}

/// A compute pass: the kernel, the buffers it works on, the slot of each,
/// and the grid it is launched with. `bindings[i]` is bound to slot `i`, so
/// the slots in use are always the first ones, without a gap.
#[derive(Clone, Debug, PartialEq, Eq)]
pub struct Dispatch {
    pub kernel: Kernel,
    /// Whether the kernel's pipeline has to be compiled before the pass.
    pub compile: bool,
    /// The buffers the caller hands in, in the order of its arguments.
    pub operands: Vec<Buffer>,
    /// The scratch buffer to make for the result.
    pub output: Buffer,
    pub bindings: Vec<Binding>,
    pub grid: ThreadGrid,
}

/// A `Dispatch` as a mathematical value.
pub struct DispatchView {
    pub kernel: Kernel,
    pub compile: bool,
    pub operands: Seq<Buffer>,
    pub output: Buffer,
    pub bindings: Seq<Binding>,
    pub grid: ThreadGrid,
}

impl View for Dispatch {
    type V = DispatchView;

    open spec fn view(&self) -> DispatchView {
        DispatchView {
            kernel: self.kernel,
            compile: self.compile,
            operands: self.operands@,
            output: self.output,
            bindings: self.bindings@,
            grid: self.grid,
        }
    }
}

impl DispatchView {
    /// An element-wise pass over two operands of `size` elements.
    pub open spec fn binary(
        kernel: Kernel,
        compile: bool,
        a: Buffer,
        b: Buffer,
        size: nat,
    ) -> DispatchView {
        DispatchView {
            kernel,
            compile,
            operands: seq![a, b],
            output: Buffer::of_elements(size),
            bindings: seq![Binding::Operand(0), Binding::Operand(1), Binding::Output],
            grid: ThreadGrid::elementwise_spec(size),
        }
    }

    /// An element-wise pass over one operand of `size` elements.
    pub open spec fn unary(kernel: Kernel, compile: bool, a: Buffer, size: nat) -> DispatchView {
        DispatchView {
            kernel,
            compile,
            operands: seq![a],
            output: Buffer::of_elements(size),
            bindings: seq![Binding::Operand(0), Binding::Output],
            grid: ThreadGrid::elementwise_spec(size),
        }
    }

    /// The reduction of `size` elements to their sum. The result buffer has
    /// room for as many elements as the input; the sum is its first.
    pub open spec fn reduction(compile: bool, input: Buffer, size: nat) -> DispatchView {
        DispatchView {
            kernel: Kernel::VectorSum,
            compile,
            operands: seq![input],
            output: Buffer::of_elements(size),
            bindings: seq![Binding::Operand(0), Binding::Output],
            grid: ThreadGrid::reduction_spec(),
        }
    }

    /// The product of an `m` by `n` matrix with an `n` by `k` matrix. The
    /// three dimensions travel to the kernel in one-word buffers behind the
    /// matrices.
    pub open spec fn matmul(
        compile: bool,
        a: Buffer,
        b: Buffer,
        m: nat,
        n: nat,
        k: nat,
    ) -> DispatchView {
        DispatchView {
            kernel: Kernel::MatrixMultiply,
            compile,
            operands: seq![a, b],
            output: Buffer::of_elements(m * k),
            bindings: seq![
                Binding::Operand(0),
                Binding::Operand(1),
                Binding::Output,
                Binding::Word(m as u32),
                Binding::Word(n as u32),
                Binding::Word(k as u32),
            ],
            grid: ThreadGrid::matmul_spec(m, k),
        }
    }

    /// True when the result buffer is bound to exactly one slot, so that one
    /// parameter of the kernel, and no other, writes to it.
    pub open spec fn writes_once(self) -> bool {
        &&& exists|i: int|
            0 <= i < self.bindings.len() && #[trigger] self.bindings[i] == Binding::Output
        &&& forall|i: int, j: int|
            0 <= i < j < self.bindings.len() ==> !(#[trigger] self.bindings[i] == Binding::Output
                && #[trigger] self.bindings[j] == Binding::Output)
    }

    /// True when the pass can be encoded as it stands: every slot of the
    /// kernel is filled, every operand that a slot names exists, the result
    /// buffer sits in exactly one slot, and the grid launches something.
    pub open spec fn well_formed(self) -> bool {
        &&& self.bindings.len() == self.kernel.parameters()
        &&& forall|i: int|
            0 <= i < self.bindings.len() ==> (#[trigger] self.bindings[i] matches Binding::Operand(
                j,
            ) ==> j < self.operands.len())
        &&& self.writes_once()
        &&& !self.grid.is_empty()
    }
}

impl Dispatch {
    /// Puts a pass together, and refuses it when its grid launches nothing.
    pub fn new(
        kernel: Kernel,
        compile: bool,
        operands: Vec<Buffer>,
        output: Buffer,
        bindings: Vec<Binding>,
        grid: ThreadGrid,
    ) -> (r: Result<Dispatch, MpsError>)
        ensures
            match r {
                Ok(d) => !grid.is_empty() && d@ == (DispatchView {
                    kernel,
                    compile,
                    operands: operands@,
                    output,
                    bindings: bindings@,
                    grid,
                }),
                Err(e) => grid.is_empty() && e == MpsError::InvalidDimensions,
            },
    {
        match grid.validate() {
            Err(e) => Err(e),
            Ok(()) => Ok(Dispatch { kernel, compile, operands, output, bindings, grid }),
        }
    }
}

/// An element-wise pass over two operands can be encoded whenever it has an
/// element to work on, and its grid has a thread for every element.
pub proof fn lemma_binary_is_well_formed(
    kernel: Kernel,
    compile: bool,
    a: Buffer,
    b: Buffer,
    size: nat,
)
    requires
        kernel.parameters() == 3,
        0 < size <= usize::MAX,
    ensures
        DispatchView::binary(kernel, compile, a, b, size).well_formed(),
        DispatchView::binary(kernel, compile, a, b, size).grid.covers(size, 1),
{
    crate::grid::lemma_elementwise_grid_is_tight(size);
    let d = DispatchView::binary(kernel, compile, a, b, size);
    assert(d.bindings[2] == Binding::Output);
}

/// An element-wise pass over one operand can be encoded whenever it has an
/// element to work on, and its grid has a thread for every element.
pub proof fn lemma_unary_is_well_formed(kernel: Kernel, compile: bool, a: Buffer, size: nat)
    requires
        kernel.parameters() == 2,
        0 < size <= usize::MAX,
    ensures
        DispatchView::unary(kernel, compile, a, size).well_formed(),
        DispatchView::unary(kernel, compile, a, size).grid.covers(size, 1),
{
    crate::grid::lemma_elementwise_grid_is_tight(size);
    let d = DispatchView::unary(kernel, compile, a, size);
    assert(d.bindings[1] == Binding::Output);
}

/// A reduction can always be encoded.
pub proof fn lemma_reduction_is_well_formed(compile: bool, input: Buffer, size: nat)
    ensures
        DispatchView::reduction(compile, input, size).well_formed(),
{
    let d = DispatchView::reduction(compile, input, size);
    assert(d.bindings[1] == Binding::Output);
}

/// A matrix product can be encoded, and its grid has a thread for every
/// element of the result.
pub proof fn lemma_matmul_is_well_formed(
    compile: bool,
    a: Buffer,
    b: Buffer,
    m: nat,
    n: nat,
    k: nat,
)
    requires
        m <= u32::MAX,
        k <= u32::MAX,
    ensures
        DispatchView::matmul(compile, a, b, m, n, k).well_formed(),
        DispatchView::matmul(compile, a, b, m, n, k).grid.covers(m, k),
{
    crate::grid::lemma_matmul_grid_covers(m, k);
    let d = DispatchView::matmul(compile, a, b, m, n, k);
    assert(d.bindings[2] == Binding::Output);
}

} // verus!
