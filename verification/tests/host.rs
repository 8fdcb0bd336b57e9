use mps_backend::backend::MpsBackend;
use mps_backend::buffer::Buffer;
use mps_backend::dispatch::Binding;
use mps_backend::error::MpsError;
use mps_backend::grid::ThreadGrid;
use mps_backend::host::{HostBackend, HostCall, HostPlan};
use mps_backend::kernel::Kernel;

fn call_of(plan: HostPlan) -> HostCall {
    match plan {
        HostPlan::Run(call) => call,
        other => panic!("expected a device call, got {:?}", other),
    }
}

#[test]
fn host_add_uploads_two_arrays_and_reads_one_back() {
    let backend = MpsBackend::new(true).unwrap();
    let host = HostBackend::new(&backend);
    let call = call_of(host.add(300).unwrap());
    assert_eq!(call.read, 300);
    assert_eq!(call.dispatch.kernel, Kernel::VectorAdd);
    assert_eq!(call.dispatch.operands, vec![Buffer { length: 1200 }, Buffer { length: 1200 }]);
    assert_eq!(call.dispatch.output, Buffer { length: 1200 });
    assert_eq!(call.dispatch.grid, ThreadGrid::elementwise(300));
    let a = Buffer { length: 1200 };
    assert_eq!(call.dispatch, backend.add(&a, &a, 300).unwrap());
}

#[test]
fn host_operations_pick_their_kernels() {
    let backend = MpsBackend::new(true).unwrap();
    let host = HostBackend::new(&backend);
    assert_eq!(call_of(host.add(5).unwrap()).dispatch.kernel, Kernel::VectorAdd);
    assert_eq!(call_of(host.sub(5).unwrap()).dispatch.kernel, Kernel::VectorSub);
    assert_eq!(call_of(host.multiply(5).unwrap()).dispatch.kernel, Kernel::VectorMul);
    assert_eq!(call_of(host.div(5).unwrap()).dispatch.kernel, Kernel::VectorDiv);
    assert_eq!(call_of(host.log(5).unwrap()).dispatch.kernel, Kernel::VectorLog);
    assert_eq!(call_of(host.sum(5).unwrap()).dispatch.kernel, Kernel::VectorSum);
    assert_eq!(
        call_of(host.matmul(5, 5, 5).unwrap()).dispatch.kernel,
        Kernel::MatrixMultiply
    );
}

#[test]
fn host_log_uploads_one_array() {
    let backend = MpsBackend::new(true).unwrap();
    let call = call_of(HostBackend::new(&backend).log(7).unwrap());
    assert_eq!(call.read, 7);
    assert_eq!(call.dispatch.operands, vec![Buffer { length: 28 }]);
    assert_eq!(call.dispatch.bindings, vec![Binding::Operand(0), Binding::Output]);
}

#[test]
fn elementwise_operations_on_empty_arrays_need_no_device() {
    let backend = MpsBackend::new(true).unwrap();
    let host = HostBackend::new(&backend);
    assert_eq!(host.add(0), Ok(HostPlan::Zeros(0)));
    assert_eq!(host.sub(0), Ok(HostPlan::Zeros(0)));
    assert_eq!(host.multiply(0), Ok(HostPlan::Zeros(0)));
    assert_eq!(host.div(0), Ok(HostPlan::Zeros(0)));
    assert_eq!(host.log(0), Ok(HostPlan::Zeros(0)));
}

#[test]
fn sum_and_mean_of_nothing_are_zero() {
    let backend = MpsBackend::new(true).unwrap();
    let host = HostBackend::new(&backend);
    assert_eq!(host.sum(0), Ok(HostPlan::Zeros(1)));
    assert_eq!(host.mean(0), Ok(HostPlan::Zeros(1)));
}

#[test]
fn sum_reads_back_one_number() {
    let backend = MpsBackend::new(true).unwrap();
    let call = call_of(HostBackend::new(&backend).sum(1000).unwrap());
    assert_eq!(call.read, 1);
    assert_eq!(call.dispatch.operands, vec![Buffer { length: 4000 }]);
    assert_eq!(call.dispatch.output, Buffer { length: 4000 });
    assert_eq!(call.dispatch.grid, ThreadGrid::reduction());
}

#[test]
fn mean_is_the_call_of_sum_divided_by_the_count() {
    let backend = MpsBackend::new(true).unwrap();
    let host = HostBackend::new(&backend);
    for len in [1usize, 2, 3, 255, 256, 257, 100_000] {
        let sum = call_of(host.sum(len).unwrap());
        assert_eq!(host.mean(len), Ok(HostPlan::Average(sum, len)));
    }
}

#[test]
fn host_matmul_sizes_the_three_matrices() {
    let backend = MpsBackend::new(true).unwrap();
    let call = call_of(HostBackend::new(&backend).matmul(2, 3, 4).unwrap());
    assert_eq!(call.read, 8);
    assert_eq!(call.dispatch.operands, vec![Buffer { length: 24 }, Buffer { length: 48 }]);
    assert_eq!(call.dispatch.output, Buffer { length: 32 });
    assert_eq!(
        call.dispatch,
        backend
            .matmul(&Buffer { length: 24 }, &Buffer { length: 48 }, 2, 3, 4)
            .unwrap()
    );
}

#[test]
fn host_matmul_refuses_each_zero_dimension() {
    let backend = MpsBackend::new(true).unwrap();
    let host = HostBackend::new(&backend);
    assert_eq!(host.matmul(0, 2, 2), Err(MpsError::InvalidDimensions));
    assert_eq!(host.matmul(2, 0, 2), Err(MpsError::InvalidDimensions));
    assert_eq!(host.matmul(2, 2, 0), Err(MpsError::InvalidDimensions));
}

#[test]
fn exp_pow_and_sqrt_are_not_implemented() {
    let backend = MpsBackend::new(true).unwrap();
    let host = HostBackend::new(&backend);
    for len in [0usize, 1, 1000] {
        assert_eq!(host.exp(len), Err(MpsError::NotImplemented));
        assert_eq!(host.pow(len), Err(MpsError::NotImplemented));
        assert_eq!(host.sqrt(len), Err(MpsError::NotImplemented));
    }
}

#[test]
fn what_is_read_back_lies_inside_the_result_buffer() {
    let backend = MpsBackend::new(true).unwrap();
    let host = HostBackend::new(&backend);
    let plans = [
        host.add(1).unwrap(),
        host.sub(256).unwrap(),
        host.multiply(257).unwrap(),
        host.div(3).unwrap(),
        host.log(9999).unwrap(),
        host.sum(1).unwrap(),
        host.sum(77).unwrap(),
        host.mean(5).unwrap(),
        host.matmul(3, 1, 9).unwrap(),
    ];
    for plan in plans {
        let call = match plan {
            HostPlan::Run(call) => call,
            HostPlan::Average(call, _) => call,
            HostPlan::Zeros(_) => panic!("these calls need the device"),
        };
        assert!(call.dispatch.output.holds(call.read));
        assert_eq!(call.dispatch.bindings.len(), call.dispatch.kernel.parameter_count());
    }
}

#[test]
fn the_same_call_is_planned_the_same_way_again() {
    let backend = MpsBackend::new(true).unwrap();
    let host = HostBackend::new(&backend);
    assert_eq!(host.add(123), host.add(123));
    assert_eq!(host.mean(123), host.mean(123));
    assert_eq!(host.matmul(4, 5, 6), host.matmul(4, 5, 6));
    assert_eq!(host.sqrt(4), host.sqrt(4));
}

#[test]
fn a_kept_pipeline_changes_only_the_compile_flag() {
    let mut backend = MpsBackend::new(true).unwrap();
    let first = call_of(HostBackend::new(&backend).multiply(10).unwrap());
    backend.record_pipeline(Kernel::VectorMul, true).unwrap();
    let second = call_of(HostBackend::new(&backend).multiply(10).unwrap());
    assert!(first.dispatch.compile);
    assert!(!second.dispatch.compile);
    let mut expected = first.clone();
    expected.dispatch.compile = false;
    assert_eq!(second, expected);
}
