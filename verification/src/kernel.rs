//! The compute kernels of the backend, and the record of which of them
//! already have a compiled pipeline.

use vstd::prelude::*;

verus! {

/// A shader source module. Each one is compiled as a whole.
#[derive(Clone, Copy, Debug, PartialEq, Eq, Structural)]
pub enum ShaderModule {
    /// Element-wise kernels and the reduction.
    BinaryOps,
    /// Matrix kernels.
    MatrixOps,
}

/// A kernel the backend can dispatch.
#[derive(Clone, Copy, Debug, PartialEq, Eq, Structural)]
pub enum Kernel {
    VectorAdd,
    VectorSub,
    VectorMul,
    VectorDiv,
    VectorLog,
    VectorSum,
    MatrixMultiply,
}

impl Kernel {
    /// The module whose source defines the kernel.
    pub open spec fn module_spec(self) -> ShaderModule {
        match self {
            Kernel::MatrixMultiply => ShaderModule::MatrixOps,
            _ => ShaderModule::BinaryOps,
        }
    }

    /// The name of the kernel's entry point in its module.
    pub open spec fn entry_name(self) -> Seq<char> {
        match self {
            Kernel::VectorAdd => "vector_add"@,
            Kernel::VectorSub => "vector_sub"@,
            Kernel::VectorMul => "vector_mul"@,
            Kernel::VectorDiv => "vector_div"@,
            Kernel::VectorLog => "vector_log"@,
            Kernel::VectorSum => "vector_sum"@,
            Kernel::MatrixMultiply => "matrix_multiply"@,
        }
    }

    /// The number of buffers the kernel declares, which is the number of
    /// slots a dispatch of it has to fill.
    pub open spec fn parameters(self) -> nat {
        match self {
            Kernel::VectorAdd | Kernel::VectorSub | Kernel::VectorMul | Kernel::VectorDiv => 3,
            Kernel::VectorLog | Kernel::VectorSum => 2,
            Kernel::MatrixMultiply => 6,
        }
    }

    /// The module whose source defines the kernel.
    pub fn module(&self) -> (m: ShaderModule)
        ensures
            m == self.module_spec(),
    {
        match self {
            Kernel::MatrixMultiply => ShaderModule::MatrixOps,
            _ => ShaderModule::BinaryOps,
        }
    }

    /// The name under which the kernel's module exports it.
    pub fn entry_point(&self) -> (name: &'static str)
        ensures
            name@ == self.entry_name(),
    {
        match self {
            Kernel::VectorAdd => "vector_add",
            Kernel::VectorSub => "vector_sub",
            Kernel::VectorMul => "vector_mul",
            Kernel::VectorDiv => "vector_div",
            Kernel::VectorLog => "vector_log",
            Kernel::VectorSum => "vector_sum",
            Kernel::MatrixMultiply => "matrix_multiply",
        }
    }

    /// The number of buffer slots the kernel declares.
    pub fn parameter_count(&self) -> (n: usize)
        ensures
            n == self.parameters(),
    {
        match self {
            Kernel::VectorAdd | Kernel::VectorSub | Kernel::VectorMul | Kernel::VectorDiv => 3,
            Kernel::VectorLog | Kernel::VectorSum => 2,
            Kernel::MatrixMultiply => 6,
        }
    }
}

/// No two kernels share an entry point, so a module and an entry point name
/// identify a pipeline.
pub proof fn lemma_entry_points_are_distinct(a: Kernel, b: Kernel)
    ensures
        a.entry_name() == b.entry_name() ==> a == b,
{
    reveal_strlit("vector_add");
    reveal_strlit("vector_sub");
    reveal_strlit("vector_mul");
    reveal_strlit("vector_div");
    reveal_strlit("vector_log");
    reveal_strlit("vector_sum");
    reveal_strlit("matrix_multiply");
    if a != b && a.entry_name() == b.entry_name() {
        let name = a.entry_name();
        let other = b.entry_name();
        assert(name.len() == other.len());
        assert(name[7] == other[7]);
        assert(name[8] == other[8]);
        assert(name[9] == other[9]);
    }
}

/// The kernels whose pipeline has been compiled on a device. A pipeline is
/// compiled once, when a call first needs it, and serves every later call.
#[derive(Clone, Copy, Debug)]
pub struct KernelCache {
    vector_add: bool,
    vector_sub: bool,
    vector_mul: bool,
    vector_div: bool,
    vector_log: bool,
    vector_sum: bool,
    matrix_multiply: bool,
}

impl View for KernelCache {
    type V = Set<Kernel>;

    closed spec fn view(&self) -> Set<Kernel> {
        Set::new(|k: Kernel| self.holds(k))
    }
}

impl KernelCache {
    spec fn holds(self, kernel: Kernel) -> bool {
        match kernel {
            Kernel::VectorAdd => self.vector_add,
            Kernel::VectorSub => self.vector_sub,
            Kernel::VectorMul => self.vector_mul,
            Kernel::VectorDiv => self.vector_div,
            Kernel::VectorLog => self.vector_log,
            Kernel::VectorSum => self.vector_sum,
            Kernel::MatrixMultiply => self.matrix_multiply,
        }
    }

    /// A cache that holds no pipeline.
    pub fn new() -> (cache: KernelCache)
        ensures
            cache@ == Set::<Kernel>::empty(),
    {
        let cache = KernelCache {
            vector_add: false,
            vector_sub: false,
            vector_mul: false,
            vector_div: false,
            vector_log: false,
            vector_sum: false,
            matrix_multiply: false,
        };
        assert(cache@ =~= Set::<Kernel>::empty());
        cache
    }

    /// Whether the pipeline of `kernel` has been compiled.
    pub fn contains(&self, kernel: Kernel) -> (present: bool)
        ensures
            present == self@.contains(kernel),
    {
        match kernel {
            Kernel::VectorAdd => self.vector_add,
            Kernel::VectorSub => self.vector_sub,
            Kernel::VectorMul => self.vector_mul,
            Kernel::VectorDiv => self.vector_div,
            Kernel::VectorLog => self.vector_log,
            Kernel::VectorSum => self.vector_sum,
            Kernel::MatrixMultiply => self.matrix_multiply,
        }
    }

    /// Records that the pipeline of `kernel` has been compiled.
    pub fn insert(&mut self, kernel: Kernel)
        ensures
            final(self)@ == old(self)@.insert(kernel),
    {
        match kernel {
            Kernel::VectorAdd => self.vector_add = true,
            Kernel::VectorSub => self.vector_sub = true,
            Kernel::VectorMul => self.vector_mul = true,
            Kernel::VectorDiv => self.vector_div = true,
            Kernel::VectorLog => self.vector_log = true,
            Kernel::VectorSum => self.vector_sum = true,
            Kernel::MatrixMultiply => self.matrix_multiply = true,
        }
        assert(self@ =~= old(self)@.insert(kernel));
    }
}

} // verus!
