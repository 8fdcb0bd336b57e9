//! The backend: one planning function for each operation of the device.

use crate::buffer::{Buffer, ELEMENT_BYTES};
use crate::dispatch::{
    lemma_binary_is_well_formed, lemma_matmul_is_well_formed, lemma_reduction_is_well_formed,
    lemma_unary_is_well_formed, Binding, Dispatch, DispatchView,
};
use crate::error::MpsError;
use crate::feature::{
    lemma_feature_names_differ, DeviceFeatures, FeatureRecord, GPU_FEATURE_FP16, GPU_FEATURE_FP64,
};
use crate::grid::{lemma_elementwise_grid_is_tight, lemma_matmul_grid_covers, ThreadGrid};
use crate::kernel::{Kernel, KernelCache};
use vstd::prelude::*;

verus! {

/// The backend of one compute device. It remembers which pipelines the
/// device has compiled; everything else about a call is decided anew.
#[derive(Debug)]
pub struct MpsBackend {
    pipelines: KernelCache,
}

impl MpsBackend {
    /// The kernels whose pipeline is compiled and kept.
    pub closed spec fn compiled(&self) -> Set<Kernel> {
        self.pipelines@
    }

    /// The features that the backend reports, whatever the device under it
    /// could do beyond them.
    pub open spec fn supported_features() -> Map<Seq<char>, FeatureRecord> {
        Map::<Seq<char>, FeatureRecord>::empty().insert(
            GPU_FEATURE_FP16@,
            FeatureRecord {
                supported: true,
                description: Some("Half-precision floating point support"@),
            },
        ).insert(
            GPU_FEATURE_FP64@,
            FeatureRecord {
                supported: false,
                description: Some("Double-precision floating point support"@),
            },
        )
    }

    /// The backend of the default device. `device_found` says whether the
    /// machine has one; without a device there is no backend.
    pub fn new(device_found: bool) -> (r: Result<MpsBackend, MpsError>)
        ensures
            match r {
                Ok(backend) => device_found && backend.compiled() == Set::<Kernel>::empty(),
                Err(e) => !device_found && e == MpsError::DeviceCreationError,
            },
    {
        if device_found {
            Ok(MpsBackend { pipelines: KernelCache::new() })
        } else {
            Err(MpsError::DeviceCreationError)
        }
    }

    /// The buffer that a copy of `data` fills: as many bytes as the elements
    /// of `data` occupy in memory.
    pub fn create_buffer<T: Copy>(&self, data: &[T]) -> (r: Result<Buffer, MpsError>)
        ensures
            r == Ok::<Buffer, MpsError>(
                Buffer { length: (data@.len() * vstd::layout::size_of::<T>()) as u64 },
            ),
            data@.len() * vstd::layout::size_of::<T>() <= usize::MAX,
    {
        broadcast use vstd::layout::layout_of_slices;

        let length: usize = std::mem::size_of_val(data);
        Ok(Buffer { length: length as u64 })
    }

    /// Whether the pipeline of `kernel` is compiled and kept.
    pub fn has_pipeline(&self, kernel: Kernel) -> (present: bool)
        ensures
            present == self.compiled().contains(kernel),
    {
        self.pipelines.contains(kernel)
    }

    /// Takes note of how the compilation of `kernel` ended. A pipeline that
    /// was built is kept for later calls. A failure ends the call that asked
    /// for the pipeline and leaves the backend as it was.
    pub fn record_pipeline(&mut self, kernel: Kernel, built: bool) -> (r: Result<(), MpsError>)
        ensures
            built ==> r is Ok && final(self).compiled() == old(self).compiled().insert(kernel),
            !built ==> r == Err::<(), MpsError>(MpsError::ShaderCompilationError),
            !built ==> final(self).compiled() == old(self).compiled(),
    {
        if built {
            self.pipelines.insert(kernel);
            Ok(())
        } else {
            Err(MpsError::ShaderCompilationError)
        }
    }

    fn binary(&self, kernel: Kernel, a: &Buffer, b: &Buffer, size: usize) -> (r: Result<
        Dispatch,
        MpsError,
    >)
        requires
            kernel.parameters() == 3,
            size * ELEMENT_BYTES <= usize::MAX,
        ensures
            match r {
                Ok(d) => size > 0 && d@ == DispatchView::binary(
                    kernel,
                    !self.compiled().contains(kernel),
                    *a,
                    *b,
                    size as nat,
                ) && d@.well_formed(),
                Err(e) => size == 0 && e == MpsError::InvalidDimensions,
            },
    {
        let output = Buffer::for_elements(size);
        let mut operands: Vec<Buffer> = Vec::new();
        operands.push(*a);
        operands.push(*b);
        let mut bindings: Vec<Binding> = Vec::new();
        bindings.push(Binding::Operand(0));
        bindings.push(Binding::Operand(1));
        bindings.push(Binding::Output);
        let grid = ThreadGrid::elementwise(size);
        proof {
            lemma_elementwise_grid_is_tight(size as nat);
            if size > 0 {
                lemma_binary_is_well_formed(kernel, true, *a, *b, size as nat);
                lemma_binary_is_well_formed(kernel, false, *a, *b, size as nat);
            }
            assert(operands@ =~= seq![*a, *b]);
            assert(bindings@ =~= seq![Binding::Operand(0), Binding::Operand(1), Binding::Output]);
        }
        Dispatch::new(kernel, !self.pipelines.contains(kernel), operands, output, bindings, grid)
    }

    fn unary(&self, kernel: Kernel, a: &Buffer, size: usize) -> (r: Result<Dispatch, MpsError>)
        requires
            kernel.parameters() == 2,
            size * ELEMENT_BYTES <= usize::MAX,
        ensures
            match r {
                Ok(d) => size > 0 && d@ == DispatchView::unary(
                    kernel,
                    !self.compiled().contains(kernel),
                    *a,
                    size as nat,
                ) && d@.well_formed(),
                Err(e) => size == 0 && e == MpsError::InvalidDimensions,
            },
    {
        let output = Buffer::for_elements(size);
        let mut operands: Vec<Buffer> = Vec::new();
        operands.push(*a);
        let mut bindings: Vec<Binding> = Vec::new();
        bindings.push(Binding::Operand(0));
        bindings.push(Binding::Output);
        let grid = ThreadGrid::elementwise(size);
        proof {
            lemma_elementwise_grid_is_tight(size as nat);
            if size > 0 {
                lemma_unary_is_well_formed(kernel, true, *a, size as nat);
                lemma_unary_is_well_formed(kernel, false, *a, size as nat);
            }
            assert(operands@ =~= seq![*a]);
            assert(bindings@ =~= seq![Binding::Operand(0), Binding::Output]);
        }
        Dispatch::new(kernel, !self.pipelines.contains(kernel), operands, output, bindings, grid)
    }

    /// The product of the `m` by `n` matrix in `a` with the `n` by `k` matrix
    /// in `b`, both stored row by row. A dimension of zero is refused before
    /// anything is planned.
    pub fn matmul(&self, a: &Buffer, b: &Buffer, m: usize, n: usize, k: usize) -> (r: Result<
        Dispatch,
        MpsError,
    >)
        requires
            m <= u32::MAX,
            n <= u32::MAX,
            k <= u32::MAX,
            m * k * ELEMENT_BYTES <= usize::MAX,
        ensures
            match r {
                Ok(d) => m > 0 && n > 0 && k > 0 && d@ == DispatchView::matmul(
                    !self.compiled().contains(Kernel::MatrixMultiply),
                    *a,
                    *b,
                    m as nat,
                    n as nat,
                    k as nat,
                ) && d@.well_formed(),
                Err(e) => (m == 0 || n == 0 || k == 0) && e == MpsError::InvalidDimensions,
            },
    {
        if m == 0 || n == 0 || k == 0 {
            return Err(MpsError::InvalidDimensions);
        }
        assert(m * k <= usize::MAX) by (nonlinear_arith)
            requires
                m * k * 4 <= usize::MAX,
        ;
        let output = Buffer::for_elements(m * k);
        let mut operands: Vec<Buffer> = Vec::new();
        operands.push(*a);
        operands.push(*b);
        let mut bindings: Vec<Binding> = Vec::new();
        bindings.push(Binding::Operand(0));
        bindings.push(Binding::Operand(1));
        bindings.push(Binding::Output);
        bindings.push(Binding::Word(m as u32));
        bindings.push(Binding::Word(n as u32));
        bindings.push(Binding::Word(k as u32));
        let grid = ThreadGrid::matmul(m, k);
        proof {
            lemma_matmul_grid_covers(m as nat, k as nat);
            lemma_matmul_is_well_formed(true, *a, *b, m as nat, n as nat, k as nat);
            lemma_matmul_is_well_formed(false, *a, *b, m as nat, n as nat, k as nat);
            assert(operands@ =~= seq![*a, *b]);
            assert(bindings@ =~= seq![
                Binding::Operand(0),
                Binding::Operand(1),
                Binding::Output,
                Binding::Word(m as u32),
                Binding::Word(n as u32),
                Binding::Word(k as u32),
            ]);
        }
        Dispatch::new(
            Kernel::MatrixMultiply,
            !self.pipelines.contains(Kernel::MatrixMultiply),
            operands,
            output,
            bindings,
            grid,
        )
    }

    /// The sums of the first `size` elements of `a` and `b`, pair by pair.
    pub fn add(&self, a: &Buffer, b: &Buffer, size: usize) -> (r: Result<Dispatch, MpsError>)
        requires
            size * ELEMENT_BYTES <= usize::MAX,
        ensures
            match r {
                Ok(d) => size > 0 && d@ == DispatchView::binary(
                    Kernel::VectorAdd,
                    !self.compiled().contains(Kernel::VectorAdd),
                    *a,
                    *b,
                    size as nat,
                ) && d@.well_formed(),
                Err(e) => size == 0 && e == MpsError::InvalidDimensions,
            },
    {
        self.binary(Kernel::VectorAdd, a, b, size)
    }

    /// The differences of the first `size` elements of `a` and `b`, pair by
    /// pair.
    pub fn sub(&self, a: &Buffer, b: &Buffer, size: usize) -> (r: Result<Dispatch, MpsError>)
        requires
            size * ELEMENT_BYTES <= usize::MAX,
        ensures
            match r {
                Ok(d) => size > 0 && d@ == DispatchView::binary(
                    Kernel::VectorSub,
                    !self.compiled().contains(Kernel::VectorSub),
                    *a,
                    *b,
                    size as nat,
                ) && d@.well_formed(),
                Err(e) => size == 0 && e == MpsError::InvalidDimensions,
            },
    {
        self.binary(Kernel::VectorSub, a, b, size)
    }

    /// The products of the first `size` elements of `a` and `b`, pair by
    /// pair.
    pub fn multiply(&self, a: &Buffer, b: &Buffer, size: usize) -> (r: Result<Dispatch, MpsError>)
        requires
            size * ELEMENT_BYTES <= usize::MAX,
        ensures
            match r {
                Ok(d) => size > 0 && d@ == DispatchView::binary(
                    Kernel::VectorMul,
                    !self.compiled().contains(Kernel::VectorMul),
                    *a,
                    *b,
                    size as nat,
                ) && d@.well_formed(),
                Err(e) => size == 0 && e == MpsError::InvalidDimensions,
            },
    {
        self.binary(Kernel::VectorMul, a, b, size)
    }

    /// The quotients of the first `size` elements of `a` and `b`, pair by
    /// pair.
    pub fn divide(&self, a: &Buffer, b: &Buffer, size: usize) -> (r: Result<Dispatch, MpsError>)
        requires
            size * ELEMENT_BYTES <= usize::MAX,
        ensures
            match r {
                Ok(d) => size > 0 && d@ == DispatchView::binary(
                    Kernel::VectorDiv,
                    !self.compiled().contains(Kernel::VectorDiv),
                    *a,
                    *b,
                    size as nat,
                ) && d@.well_formed(),
                Err(e) => size == 0 && e == MpsError::InvalidDimensions,
            },
    {
        self.binary(Kernel::VectorDiv, a, b, size)
    }

    /// The natural logarithms of the first `size` elements of `a`.
    pub fn log(&self, a: &Buffer, size: usize) -> (r: Result<Dispatch, MpsError>)
        requires
            size * ELEMENT_BYTES <= usize::MAX,
        ensures
            match r {
                Ok(d) => size > 0 && d@ == DispatchView::unary(
                    Kernel::VectorLog,
                    !self.compiled().contains(Kernel::VectorLog),
                    *a,
                    size as nat,
                ) && d@.well_formed(),
                Err(e) => size == 0 && e == MpsError::InvalidDimensions,
            },
    {
        self.unary(Kernel::VectorLog, a, size)
    }

    /// The features of the device as the backend reports them.
    pub fn get_supported_features(&self) -> (features: DeviceFeatures)
        ensures
            features@ == Self::supported_features(),
            features@.dom() == set![GPU_FEATURE_FP16@, GPU_FEATURE_FP64@],
            features@[GPU_FEATURE_FP16@].supported,
            !features@[GPU_FEATURE_FP64@].supported,
    {
        proof {
            lemma_feature_names_differ();
        }
        let mut features = DeviceFeatures::new();
        features.add_feature(
            GPU_FEATURE_FP16,
            true,
            Some("Half-precision floating point support".to_owned()),
        );
        features.add_feature(
            GPU_FEATURE_FP64,
            false,
            Some("Double-precision floating point support".to_owned()),
        );
        assert(features@.dom() =~= set![GPU_FEATURE_FP16@, GPU_FEATURE_FP64@]);
        features
    }

    /// The sum of the first `size` elements of `input`, computed by a single
    /// thread.
    pub fn sum_backend(&self, input: &Buffer, size: usize) -> (r: Result<Dispatch, MpsError>)
        requires
            size * ELEMENT_BYTES <= usize::MAX,
        ensures
            r matches Ok(d) && d@ == DispatchView::reduction(
                !self.compiled().contains(Kernel::VectorSum),
                *input,
                size as nat,
            ) && d@.well_formed(),
    {
        let output = Buffer::for_elements(size);
        let mut operands: Vec<Buffer> = Vec::new();
        operands.push(*input);
        let mut bindings: Vec<Binding> = Vec::new();
        bindings.push(Binding::Operand(0));
        bindings.push(Binding::Output);
        let grid = ThreadGrid::reduction();
        proof {
            lemma_reduction_is_well_formed(true, *input, size as nat);
            lemma_reduction_is_well_formed(false, *input, size as nat);
            assert(operands@ =~= seq![*input]);
            assert(bindings@ =~= seq![Binding::Operand(0), Binding::Output]);
        }
        Dispatch::new(
            Kernel::VectorSum,
            !self.pipelines.contains(Kernel::VectorSum),
            operands,
            output,
            bindings,
            grid,
        )
    }
}

} // verus!
