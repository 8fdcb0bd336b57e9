//! Whole calls on host arrays: what is copied to the device, which pass
//! runs, and how much is copied back.

use crate::backend::MpsBackend;
use crate::buffer::{Buffer, ELEMENT_BYTES};
use crate::dispatch::{
    lemma_binary_is_well_formed, lemma_matmul_is_well_formed, lemma_reduction_is_well_formed,
    lemma_unary_is_well_formed, Dispatch, DispatchView,
};
use crate::error::MpsError;
use crate::kernel::Kernel;
use vstd::prelude::*;

verus! {

/// A call that needs the device. Each operand of `dispatch` is filled with
/// one array of the caller; after the pass, `read` elements are copied out of
/// the result buffer. The buffers of a call belong to that call alone.
#[derive(Clone, Debug, PartialEq, Eq)]
pub struct HostCall {
    pub dispatch: Dispatch,
    pub read: usize,
}

/// How the backend answers a call on host arrays.
#[derive(Clone, Debug, PartialEq, Eq)]
pub enum HostPlan {
    /// The device is not needed: the result is this many zeros.
    Zeros(usize),
    /// The result is what the call copies back.
    Run(HostCall),
    /// The result is the one number that the call copies back, divided by
    /// this count.
    Average(HostCall, usize),
}

/// A `HostCall` as a mathematical value.
pub struct HostCallView {
    pub dispatch: DispatchView,
    pub read: nat,
}

/// A `HostPlan` as a mathematical value.
pub enum HostPlanView {
    Zeros(nat),
    Run(HostCallView),
    Average(HostCallView, nat),
}

impl View for HostCall {
    type V = HostCallView;

    open spec fn view(&self) -> HostCallView {
        HostCallView { dispatch: self.dispatch@, read: self.read as nat }
    }
}

impl View for HostPlan {
    type V = HostPlanView;

    open spec fn view(&self) -> HostPlanView {
        match self {
            HostPlan::Zeros(count) => HostPlanView::Zeros(*count as nat),
            HostPlan::Run(call) => HostPlanView::Run(call@),
            HostPlan::Average(call, count) => HostPlanView::Average(call@, *count as nat),
        }
    }
}

impl HostCallView {
    /// True when the pass can be encoded and the elements that are copied
    /// back lie inside the result buffer.
    pub open spec fn sound(self) -> bool {
        self.dispatch.well_formed() && self.dispatch.output.holds_spec(self.read)
    }
}

impl HostPlanView {
    /// True when the plan can be carried out as it stands: its device call,
    /// if it has one, is sound, and an average is taken of one number over a
    /// count that is not zero.
    pub open spec fn sound(self) -> bool {
        match self {
            HostPlanView::Zeros(_) => true,
            HostPlanView::Run(call) => call.sound(),
            HostPlanView::Average(call, count) => call.sound() && call.read == 1 && count > 0,
        }
    }

    /// An element-wise operation on two arrays of `len` elements each.
    pub open spec fn binary(kernel: Kernel, compile: bool, len: nat) -> HostPlanView {
        if len == 0 {
            HostPlanView::Zeros(0)
        } else {
            HostPlanView::Run(
                HostCallView {
                    dispatch: DispatchView::binary(
                        kernel,
                        compile,
                        Buffer::of_elements(len),
                        Buffer::of_elements(len),
                        len,
                    ),
                    read: len,
                },
            )
        }
    }

    /// An element-wise operation on one array of `len` elements.
    pub open spec fn unary(kernel: Kernel, compile: bool, len: nat) -> HostPlanView {
        if len == 0 {
            HostPlanView::Zeros(0)
        } else {
            HostPlanView::Run(
                HostCallView {
                    dispatch: DispatchView::unary(kernel, compile, Buffer::of_elements(len), len),
                    read: len,
                },
            )
        }
    }

    /// The device call that sums an array of `len` elements.
    pub open spec fn sum_call(compile: bool, len: nat) -> HostCallView {
        HostCallView {
            dispatch: DispatchView::reduction(compile, Buffer::of_elements(len), len),
            read: 1,
        }
    }

    /// The sum of an array of `len` elements. The sum of nothing is zero.
    pub open spec fn sum(compile: bool, len: nat) -> HostPlanView {
        if len == 0 {
            HostPlanView::Zeros(1)
        } else {
            HostPlanView::Run(Self::sum_call(compile, len))
        }
    }

    /// The mean of an array of `len` elements. The mean of nothing is zero.
    pub open spec fn mean(compile: bool, len: nat) -> HostPlanView {
        if len == 0 {
            HostPlanView::Zeros(1)
        } else {
            HostPlanView::Average(Self::sum_call(compile, len), len)
        }
    }

    /// The product of an `m` by `n` matrix with an `n` by `k` matrix.
    pub open spec fn matmul(compile: bool, m: nat, n: nat, k: nat) -> HostPlanView {
        HostPlanView::Run(
            HostCallView {
                dispatch: DispatchView::matmul(
                    compile,
                    Buffer::of_elements(m * n),
                    Buffer::of_elements(n * k),
                    m,
                    n,
                    k,
                ),
                read: m * k,
            },
        )
    }
}

/// The backend as a caller with host arrays sees it. An array is given by
/// the number of its elements; the elements themselves go from the caller
/// to the device and back without passing through the plan.
#[derive(Clone, Copy, Debug)]
pub struct HostBackend<'a> {
    backend: &'a MpsBackend,
}

impl<'a> HostBackend<'a> {
    /// The device-level backend that the calls are planned on.
    pub closed spec fn planner(&self) -> MpsBackend {
        *self.backend
    }

    /// The host-level view of `backend`.
    pub fn new(backend: &'a MpsBackend) -> (host: HostBackend<'a>)
        ensures
            host.planner() == *backend,
    {
        HostBackend { backend }
    }

    /// `a[i] + b[i]` for two arrays of `len` elements each.
    pub fn add(&self, len: usize) -> (r: Result<HostPlan, MpsError>)
        requires
            len * ELEMENT_BYTES <= usize::MAX,
        ensures
            r matches Ok(plan) && plan@ == HostPlanView::binary(
                Kernel::VectorAdd,
                !self.planner().compiled().contains(Kernel::VectorAdd),
                len as nat,
            ) && plan@.sound(),
    {
        if len == 0 {
            return Ok(HostPlan::Zeros(0));
        }
        let buffer_a = Buffer::for_elements(len);
        let buffer_b = Buffer::for_elements(len);
        match self.backend.add(&buffer_a, &buffer_b, len) {
            Ok(dispatch) => Ok(HostPlan::Run(HostCall { dispatch, read: len })),
            Err(e) => Err(e),
        }
    }

    /// `a[i] * b[i]` for two arrays of `len` elements each.
    pub fn multiply(&self, len: usize) -> (r: Result<HostPlan, MpsError>)
        requires
            len * ELEMENT_BYTES <= usize::MAX,
        ensures
            r matches Ok(plan) && plan@ == HostPlanView::binary(
                Kernel::VectorMul,
                !self.planner().compiled().contains(Kernel::VectorMul),
                len as nat,
            ) && plan@.sound(),
    {
        if len == 0 {
            return Ok(HostPlan::Zeros(0));
        }
        let buffer_a = Buffer::for_elements(len);
        let buffer_b = Buffer::for_elements(len);
        match self.backend.multiply(&buffer_a, &buffer_b, len) {
            Ok(dispatch) => Ok(HostPlan::Run(HostCall { dispatch, read: len })),
            Err(e) => Err(e),
        }
    }

    /// The product of an `m` by `n` matrix with an `n` by `k` matrix, both
    /// stored row by row. A dimension of zero is refused, and then nothing is
    /// copied to the device.
    pub fn matmul(&self, m: usize, n: usize, k: usize) -> (r: Result<HostPlan, MpsError>)
        requires
            m <= u32::MAX,
            n <= u32::MAX,
            k <= u32::MAX,
            m * n * ELEMENT_BYTES <= usize::MAX,
            n * k * ELEMENT_BYTES <= usize::MAX,
            m * k * ELEMENT_BYTES <= usize::MAX,
        ensures
            match r {
                Ok(plan) => m > 0 && n > 0 && k > 0 && plan@ == HostPlanView::matmul(
                    !self.planner().compiled().contains(Kernel::MatrixMultiply),
                    m as nat,
                    n as nat,
                    k as nat,
                ) && plan@.sound(),
                Err(e) => (m == 0 || n == 0 || k == 0) && e == MpsError::InvalidDimensions,
            },
    {
        if m == 0 || n == 0 || k == 0 {
            return Err(MpsError::InvalidDimensions);
        }
        assert(m * n <= usize::MAX && n * k <= usize::MAX && m * k <= usize::MAX)
            by (nonlinear_arith)
            requires
                m * n * 4 <= usize::MAX,
                n * k * 4 <= usize::MAX,
                m * k * 4 <= usize::MAX,
        ;
        let buffer_a = Buffer::for_elements(m * n);
        let buffer_b = Buffer::for_elements(n * k);
        match self.backend.matmul(&buffer_a, &buffer_b, m, n, k) {
            Ok(dispatch) => Ok(HostPlan::Run(HostCall { dispatch, read: m * k })),
            Err(e) => Err(e),
        }
    }

    /// `a[i] / b[i]` for two arrays of `len` elements each.
    pub fn div(&self, len: usize) -> (r: Result<HostPlan, MpsError>)
        requires
            len * ELEMENT_BYTES <= usize::MAX,
        ensures
            r matches Ok(plan) && plan@ == HostPlanView::binary(
                Kernel::VectorDiv,
                !self.planner().compiled().contains(Kernel::VectorDiv),
                len as nat,
            ) && plan@.sound(),
    {
        if len == 0 {
            return Ok(HostPlan::Zeros(0));
        }
        let buffer_a = Buffer::for_elements(len);
        let buffer_b = Buffer::for_elements(len);
        match self.backend.divide(&buffer_a, &buffer_b, len) {
            Ok(dispatch) => Ok(HostPlan::Run(HostCall { dispatch, read: len })),
            Err(e) => Err(e),
        }
    }

    /// `a[i] - b[i]` for two arrays of `len` elements each.
    pub fn sub(&self, len: usize) -> (r: Result<HostPlan, MpsError>)
        requires
            len * ELEMENT_BYTES <= usize::MAX,
        ensures
            r matches Ok(plan) && plan@ == HostPlanView::binary(
                Kernel::VectorSub,
                !self.planner().compiled().contains(Kernel::VectorSub),
                len as nat,
            ) && plan@.sound(),
    {
        if len == 0 {
            return Ok(HostPlan::Zeros(0));
        }
        let buffer_a = Buffer::for_elements(len);
        let buffer_b = Buffer::for_elements(len);
        match self.backend.sub(&buffer_a, &buffer_b, len) {
            Ok(dispatch) => Ok(HostPlan::Run(HostCall { dispatch, read: len })),
            Err(e) => Err(e),
        }
    }

    /// The exponential of each of `len` elements. The device has no kernel
    /// for it.
    pub fn exp(&self, len: usize) -> (r: Result<HostPlan, MpsError>)
        ensures
            r matches Err(e) && e == MpsError::NotImplemented,
    {
        Err(MpsError::NotImplemented)
    }

    /// The natural logarithm of each of `len` elements.
    pub fn log(&self, len: usize) -> (r: Result<HostPlan, MpsError>)
        requires
            len * ELEMENT_BYTES <= usize::MAX,
        ensures
            r matches Ok(plan) && plan@ == HostPlanView::unary(
                Kernel::VectorLog,
                !self.planner().compiled().contains(Kernel::VectorLog),
                len as nat,
            ) && plan@.sound(),
    {
        if len == 0 {
            return Ok(HostPlan::Zeros(0));
        }
        let buffer_a = Buffer::for_elements(len);
        match self.backend.log(&buffer_a, len) {
            Ok(dispatch) => Ok(HostPlan::Run(HostCall { dispatch, read: len })),
            Err(e) => Err(e),
        }
    }

    /// Each of `len` elements raised to one power. The device has no kernel
    /// for it.
    pub fn pow(&self, len: usize) -> (r: Result<HostPlan, MpsError>)
        ensures
            r matches Err(e) && e == MpsError::NotImplemented,
    {
        Err(MpsError::NotImplemented)
    }

    /// The square root of each of `len` elements. The device has no kernel
    /// for it.
    pub fn sqrt(&self, len: usize) -> (r: Result<HostPlan, MpsError>)
        ensures
            r matches Err(e) && e == MpsError::NotImplemented,
    {
        Err(MpsError::NotImplemented)
    }

    /// The sum of `len` elements.
    pub fn sum(&self, len: usize) -> (r: Result<HostPlan, MpsError>)
        requires
            len * ELEMENT_BYTES <= usize::MAX,
        ensures
            r matches Ok(plan) && plan@ == HostPlanView::sum(
                !self.planner().compiled().contains(Kernel::VectorSum),
                len as nat,
            ) && plan@.sound(),
    {
        if len == 0 {
            return Ok(HostPlan::Zeros(1));
        }
        let buffer_a = Buffer::for_elements(len);
        match self.backend.sum_backend(&buffer_a, len) {
            Ok(dispatch) => Ok(HostPlan::Run(HostCall { dispatch, read: 1 })),
            Err(e) => Err(e),
        }
    }

    /// The mean of `len` elements.
    pub fn mean(&self, len: usize) -> (r: Result<HostPlan, MpsError>)
        requires
            len * ELEMENT_BYTES <= usize::MAX,
        ensures
            r matches Ok(plan) && plan@ == HostPlanView::mean(
                !self.planner().compiled().contains(Kernel::VectorSum),
                len as nat,
            ) && plan@.sound(),
    {
        if len == 0 {
            return Ok(HostPlan::Zeros(1));
        }
        match self.sum(len) {
            Ok(HostPlan::Run(call)) => Ok(HostPlan::Average(call, len)),
            Ok(other) => Ok(other),
            Err(e) => Err(e),
        }
    }
}

/// An operation on arrays without elements does not reach the device. An
/// element-wise operation then gives the array without elements, and sum
/// and mean give zero.
pub proof fn lemma_empty_input_needs_no_device(kernel: Kernel, compile: bool)
    ensures
        HostPlanView::binary(kernel, compile, 0) == HostPlanView::Zeros(0),
        HostPlanView::unary(kernel, compile, 0) == HostPlanView::Zeros(0),
        HostPlanView::sum(compile, 0) == HostPlanView::Zeros(1),
        HostPlanView::mean(compile, 0) == HostPlanView::Zeros(1),
{
}

/// The mean of an array that has elements is the sum of the same array, as
/// the same device call computes it, divided by the number of elements.
pub proof fn lemma_mean_averages_the_sum(compile: bool, len: nat)
    requires
        len > 0,
    ensures
        HostPlanView::sum(compile, len) == HostPlanView::Run(HostPlanView::sum_call(compile, len)),
        HostPlanView::mean(compile, len) == HostPlanView::Average(
            HostPlanView::sum_call(compile, len),
            len,
        ),
{
}

/// Every device call of an element-wise operation on two arrays can be
/// encoded, launches a thread for each element, and copies back no more
/// than the result buffer holds.
pub proof fn lemma_binary_call_is_sound(kernel: Kernel, compile: bool, len: nat)
    requires
        kernel.parameters() == 3,
        0 < len,
        len * ELEMENT_BYTES <= usize::MAX,
    ensures
        HostPlanView::binary(kernel, compile, len) matches HostPlanView::Run(call) && call.sound()
            && call.dispatch.grid.covers(len, 1),
{
    lemma_binary_is_well_formed(
        kernel,
        compile,
        Buffer::of_elements(len),
        Buffer::of_elements(len),
        len,
    );
}

/// Every device call of an element-wise operation on one array can be
/// encoded, launches a thread for each element, and copies back no more
/// than the result buffer holds.
pub proof fn lemma_unary_call_is_sound(kernel: Kernel, compile: bool, len: nat)
    requires
        kernel.parameters() == 2,
        0 < len,
        len * ELEMENT_BYTES <= usize::MAX,
    ensures
        HostPlanView::unary(kernel, compile, len) matches HostPlanView::Run(call) && call.sound()
            && call.dispatch.grid.covers(len, 1),
{
    lemma_unary_is_well_formed(kernel, compile, Buffer::of_elements(len), len);
}

/// The device call behind sum and mean can be encoded, and the one number
/// it copies back lies inside the result buffer.
pub proof fn lemma_sum_call_is_sound(compile: bool, len: nat)
    requires
        0 < len,
        len * ELEMENT_BYTES <= usize::MAX,
    ensures
        HostPlanView::sum_call(compile, len).sound(),
{
    lemma_reduction_is_well_formed(compile, Buffer::of_elements(len), len);
}

/// The device call of a matrix product can be encoded, launches a thread
/// for each element of the result, and copies back no more than the result
/// buffer holds.
pub proof fn lemma_matmul_call_is_sound(compile: bool, m: nat, n: nat, k: nat)
    requires
        m <= u32::MAX,
        k <= u32::MAX,
        m * k * ELEMENT_BYTES <= usize::MAX,
    ensures
        HostPlanView::matmul(compile, m, n, k) matches HostPlanView::Run(call) && call.sound()
            && call.dispatch.grid.covers(m, k),
{
    lemma_matmul_is_well_formed(
        compile,
        Buffer::of_elements(m * n),
        Buffer::of_elements(n * k),
        m,
        n,
        k,
    );
}

} // verus!
