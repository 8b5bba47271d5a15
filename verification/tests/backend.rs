use candle_wgpu::backend::{
    AdapterRequest, DeviceGrant, DeviceLimits, DeviceRequest, PollStatus, PowerPreference, WgpuBackend,
};
use candle_wgpu::buffer::{BufferHandle, BufferRecord, BufferRef, BufferUsages};
use candle_wgpu::command::{Binding, BindingKind, Command, Workgroups};
use candle_wgpu::conv::WgpuConvParams;
use candle_wgpu::error::WgpuBackendError;
use candle_wgpu::kernel::Shader;

fn started(gpu_id: usize) -> WgpuBackend {
    let mut backend = WgpuBackend::new(DeviceGrant::Granted { gpu_id }).unwrap();
    backend.take_commands();
    backend
}

fn native(words: &[u32]) -> Vec<u8> {
    words.iter().flat_map(|w| w.to_ne_bytes()).collect()
}

fn storage() -> BufferUsages {
    BufferUsages { map_read: false, copy_src: true, copy_dst: true, uniform: false, storage: true }
}

fn run_of(shader: Shader, entry: &str, inputs: &[BufferHandle], output: BufferHandle, words: &[u32]) -> Vec<Command> {
    let mut bindings = vec![Binding { binding: 0, kind: BindingKind::Uniform, buffer: BufferRef::Scratch }];
    for (i, input) in inputs.iter().enumerate() {
        bindings.push(Binding {
            binding: i as u32 + 1,
            kind: BindingKind::Storage { read_only: true },
            buffer: BufferRef::Registered(*input),
        });
    }
    bindings.push(Binding {
        binding: inputs.len() as u32 + 1,
        kind: BindingKind::Storage { read_only: false },
        buffer: BufferRef::Registered(output),
    });
    vec![
        Command::CreateBufferInit {
            target: BufferRef::Scratch,
            contents: native(words),
            usage: BufferUsages { map_read: false, copy_src: false, copy_dst: false, uniform: true, storage: false },
        },
        Command::Dispatch {
            shader,
            entry_point: entry.to_string(),
            bindings,
            workgroups: Workgroups { x: 64, y: 1, z: 1 },
        },
        Command::Submit,
        Command::Release { buffer: BufferRef::Scratch },
    ]
}

#[test]
fn lib_test_init() {
    let mut backend = WgpuBackend::new(DeviceGrant::Granted { gpu_id: 3 }).unwrap();
    assert_eq!(backend.get_gpu_id(), 3);
    assert_eq!(backend.buffer_count(), 0);
    let commands = backend.take_commands();
    let compiled: Vec<Shader> = commands
        .iter()
        .map(|c| match c {
            Command::CompileShader { shader } => *shader,
            other => panic!("unexpected command {other:?}"),
        })
        .collect();
    assert_eq!(
        compiled,
        vec![
            Shader::Conv,
            Shader::Fill,
            Shader::FillU8,
            Shader::FillU32,
            Shader::Random,
            Shader::Copy,
            Shader::CopySparse,
            Shader::ConvertU8ToF32,
            Shader::ConvertU32ToF32,
            Shader::Affine,
            Shader::BinaryOp,
            Shader::UnaryOp,
            Shader::UpsampleNearest,
            Shader::Repeat,
        ]
    );
    assert!(backend.take_commands().is_empty());
}

#[test]
fn init_without_adapter_fails() {
    assert_eq!(WgpuBackend::new(DeviceGrant::NoAdapter).err(), Some(WgpuBackendError::InitializationError));
}

#[test]
fn init_with_rejected_device_fails() {
    let r = WgpuBackend::new(DeviceGrant::Rejected("limits too high".to_string()));
    assert_eq!(r.err(), Some(WgpuBackendError::RequestDeviceError("limits too high".to_string())));
}

#[test]
fn create_buffer_registers_and_records() {
    let mut backend = started(5);
    let first = backend.create_buffer(1024).unwrap();
    let second = backend.create_buffer(0).unwrap();
    assert_eq!(first, BufferHandle { gpu_id: 5, index: 0 });
    assert_eq!(second, BufferHandle { gpu_id: 5, index: 1 });
    assert_eq!(backend.buffer_count(), 2);
    assert_eq!(backend.lookup(first), Some(BufferRecord { size: 1024 }));
    assert_eq!(backend.lookup(second), Some(BufferRecord { size: 0 }));
    assert_eq!(
        backend.take_commands(),
        vec![
            Command::CreateBuffer { target: BufferRef::Registered(first), size: 1024, usage: storage() },
            Command::CreateBuffer { target: BufferRef::Registered(second), size: 0, usage: storage() },
        ]
    );
}

#[test]
fn lookup_knows_only_its_own_handles() {
    let mut backend = started(5);
    let handle = backend.create_buffer(8).unwrap();
    assert_eq!(backend.lookup(BufferHandle { gpu_id: 5, index: 1 }), None);
    assert_eq!(backend.lookup(BufferHandle { gpu_id: 6, index: 0 }), None);
    assert_eq!(backend.lookup(handle), Some(BufferRecord { size: 8 }));
}

#[test]
fn upload_records_stage_allocate_copy_submit_wait_release() {
    let mut backend = started(1);
    let handle = backend.create_buffer_with_data(&[7, 8, 9]).unwrap();
    assert_eq!(handle, BufferHandle { gpu_id: 1, index: 0 });
    assert_eq!(backend.lookup(handle), Some(BufferRecord { size: 3 }));
    assert_eq!(
        backend.take_commands(),
        vec![
            Command::CreateBufferInit {
                target: BufferRef::Scratch,
                contents: vec![7, 8, 9],
                usage: BufferUsages { map_read: false, copy_src: true, copy_dst: false, uniform: false, storage: false },
            },
            Command::CreateBuffer { target: BufferRef::Registered(handle), size: 3, usage: storage() },
            Command::CopyBufferToBuffer {
                source: BufferRef::Scratch,
                source_offset: 0,
                destination: BufferRef::Registered(handle),
                destination_offset: 0,
                size: 3,
            },
            Command::Submit,
            Command::Wait,
            Command::Release { buffer: BufferRef::Scratch },
        ]
    );
}

#[test]
fn upload_completes_by_the_poll_status() {
    let handle = BufferHandle { gpu_id: 1, index: 4 };
    assert_eq!(WgpuBackend::complete_upload(handle, PollStatus::Completed), Ok(handle));
    assert_eq!(
        WgpuBackend::complete_upload(handle, PollStatus::SubmissionQueueEmpty),
        Err(WgpuBackendError::SubmissionQueueEmpty("create_buffer_with_data".to_string()))
    );
    assert_eq!(
        WgpuBackend::complete_upload(handle, PollStatus::TimedOut),
        Err(WgpuBackendError::Timeout("create_buffer_with_data".to_string()))
    );
}

#[test]
fn read_back_records_stage_copy_submit_map_wait_read_unmap_release() {
    let mut backend = started(1);
    let handle = backend.create_buffer(12).unwrap();
    backend.take_commands();
    assert_eq!(backend.read_buf(handle), Ok(12));
    assert_eq!(
        backend.take_commands(),
        vec![
            Command::CreateBuffer {
                target: BufferRef::Scratch,
                size: 12,
                usage: BufferUsages { map_read: true, copy_src: false, copy_dst: true, uniform: false, storage: false },
            },
            Command::CopyBufferToBuffer {
                source: BufferRef::Registered(handle),
                source_offset: 0,
                destination: BufferRef::Scratch,
                destination_offset: 0,
                size: 12,
            },
            Command::Submit,
            Command::MapRead { buffer: BufferRef::Scratch },
            Command::Wait,
            Command::ReadMapped { buffer: BufferRef::Scratch },
            Command::Unmap { buffer: BufferRef::Scratch },
            Command::Release { buffer: BufferRef::Scratch },
        ]
    );
    assert_eq!(backend.buffer_count(), 1);
}

#[test]
fn read_back_of_an_unknown_handle_is_refused() {
    let mut backend = started(1);
    let stranger = BufferHandle { gpu_id: 1, index: 0 };
    assert_eq!(backend.read_buf(stranger), Err(WgpuBackendError::InvalidBuffer(stranger)));
    assert!(backend.take_commands().is_empty());
}

#[test]
fn read_back_completes_by_poll_status_and_mapping() {
    assert_eq!(WgpuBackend::complete_read(PollStatus::Completed, Some(vec![1, 2, 3])), Ok(vec![1, 2, 3]));
    assert_eq!(WgpuBackend::complete_read(PollStatus::Completed, None), Err(WgpuBackendError::BufferError));
    assert_eq!(
        WgpuBackend::complete_read(PollStatus::SubmissionQueueEmpty, Some(vec![1])),
        Err(WgpuBackendError::SubmissionQueueEmpty("read_buf".to_string()))
    );
    assert_eq!(
        WgpuBackend::complete_read(PollStatus::SubmissionQueueEmpty, None),
        Err(WgpuBackendError::SubmissionQueueEmpty("read_buf".to_string()))
    );
    assert_eq!(
        WgpuBackend::complete_read(PollStatus::TimedOut, Some(vec![1])),
        Err(WgpuBackendError::Timeout("read_buf".to_string()))
    );
    assert_eq!(
        WgpuBackend::complete_read(PollStatus::TimedOut, None),
        Err(WgpuBackendError::Timeout("read_buf".to_string()))
    );
}

#[test]
fn read_mapped_copies_the_bytes() {
    assert_eq!(WgpuBackend::read_mapped(&[4, 0, 255, 1, 2]), vec![4, 0, 255, 1, 2]);
    assert_eq!(WgpuBackend::read_mapped(&[]), Vec::<u8>::new());
}

#[test]
fn run_shader_binds_parameters_then_inputs_then_output() {
    let mut backend = started(2);
    let a = backend.create_buffer(8).unwrap();
    let b = backend.create_buffer(8).unwrap();
    let c = backend.create_buffer(8).unwrap();
    backend.take_commands();
    let params = WgpuConvParams::default();
    let words = [1u32, 1, 1, 1, 1, 1, 1, 0, 0, 1, 1];

    assert_eq!(backend.run_shader(Shader::Fill, "ones", c, &params), Ok(c));
    assert_eq!(backend.take_commands(), run_of(Shader::Fill, "ones", &[], c, &words));

    assert_eq!(backend.run_shader_with_input(Shader::Copy, "copy", a, c, &params), Ok(c));
    assert_eq!(backend.take_commands(), run_of(Shader::Copy, "copy", &[a], c, &words));

    assert_eq!(backend.run_shader_with_input_2(Shader::Conv, "conv2d", a, b, c, &params), Ok(c));
    assert_eq!(backend.take_commands(), run_of(Shader::Conv, "conv2d", &[a, b], c, &words));
    assert_eq!(backend.buffer_count(), 3);
}

#[test]
fn run_shader_reports_the_first_unknown_handle() {
    let mut backend = started(2);
    let known = backend.create_buffer(8).unwrap();
    backend.take_commands();
    let x = BufferHandle { gpu_id: 2, index: 7 };
    let y = BufferHandle { gpu_id: 9, index: 0 };
    let params = WgpuConvParams::default();
    assert_eq!(backend.run_shader(Shader::Fill, "ones", x, &params), Err(WgpuBackendError::InvalidBuffer(x)));
    assert_eq!(
        backend.run_shader_with_input(Shader::Copy, "copy", x, y, &params),
        Err(WgpuBackendError::InvalidBuffer(x))
    );
    assert_eq!(
        backend.run_shader_with_input(Shader::Copy, "copy", known, y, &params),
        Err(WgpuBackendError::InvalidBuffer(y))
    );
    assert_eq!(
        backend.run_shader_with_input_2(Shader::Conv, "conv2d", known, y, x, &params),
        Err(WgpuBackendError::InvalidBuffer(y))
    );
    assert_eq!(
        backend.run_shader_with_input_2(Shader::Conv, "conv2d", known, known, x, &params),
        Err(WgpuBackendError::InvalidBuffer(x))
    );
    assert!(backend.take_commands().is_empty());
    assert_eq!(backend.buffer_count(), 1);
}

#[test]
fn every_kernel_family_names_its_module_and_entry_point() {
    let mut backend = started(0);
    let a = backend.create_buffer(16).unwrap();
    let b = backend.create_buffer(16).unwrap();
    let c = backend.create_buffer(16).unwrap();
    backend.take_commands();

    backend.affine(a, c, 0x4019_999a, 0x40a0_0000).unwrap();
    assert_eq!(backend.take_commands(), run_of(Shader::Affine, "affine", &[a], c, &[0x4019_999a, 0x40a0_0000]));

    backend.binary_max(a, b, c).unwrap();
    assert_eq!(backend.take_commands(), run_of(Shader::BinaryOp, "max", &[a, b], c, &[0]));
    backend.binary_add(a, b, c).unwrap();
    assert_eq!(backend.take_commands(), run_of(Shader::BinaryOp, "add", &[a, b], c, &[0]));
    backend.binary_sub(a, b, c).unwrap();
    assert_eq!(backend.take_commands(), run_of(Shader::BinaryOp, "sub", &[a, b], c, &[0]));
    backend.binary_mul(a, b, c).unwrap();
    assert_eq!(backend.take_commands(), run_of(Shader::BinaryOp, "mul", &[a, b], c, &[0]));
    backend.binary_div(a, b, c).unwrap();
    assert_eq!(backend.take_commands(), run_of(Shader::BinaryOp, "div", &[a, b], c, &[0]));

    backend.sqrt(a, c).unwrap();
    assert_eq!(backend.take_commands(), run_of(Shader::UnaryOp, "sqrt", &[a], c, &[0]));
    backend.neg(a, c).unwrap();
    assert_eq!(backend.take_commands(), run_of(Shader::UnaryOp, "neg", &[a], c, &[0]));
    backend.exp(a, c).unwrap();
    assert_eq!(backend.take_commands(), run_of(Shader::UnaryOp, "exp", &[a], c, &[0]));
    backend.recip(a, c).unwrap();
    assert_eq!(backend.take_commands(), run_of(Shader::UnaryOp, "recip", &[a], c, &[0]));

    backend.convert_u8_to_f32(a, c).unwrap();
    assert_eq!(backend.take_commands(), run_of(Shader::ConvertU8ToF32, "convert", &[a], c, &[0]));
    backend.convert_u32_to_f32(a, c).unwrap();
    assert_eq!(backend.take_commands(), run_of(Shader::ConvertU32ToF32, "convert", &[a], c, &[0]));

    backend.copy(a, c, 6, 5, 2, 3).unwrap();
    assert_eq!(backend.take_commands(), run_of(Shader::Copy, "copy", &[a], c, &[6, 5, 2, 3]));
    backend.copy_sparse(a, c, 2, 4).unwrap();
    assert_eq!(backend.take_commands(), run_of(Shader::CopySparse, "copy_sparse", &[a], c, &[2, 4]));
    backend.repeat(a, c, 2, 4).unwrap();
    assert_eq!(backend.take_commands(), run_of(Shader::Repeat, "repeat", &[a], c, &[2, 4]));
    backend.upsample_nearest(1, 2, 3, 4, 5, 6, a, c).unwrap();
    assert_eq!(
        backend.take_commands(),
        run_of(Shader::UpsampleNearest, "upsample_nearest", &[a], c, &[1, 2, 3, 4, 5, 6])
    );

    backend.fill_ones(c).unwrap();
    assert_eq!(backend.take_commands(), run_of(Shader::Fill, "ones", &[], c, &[0]));
    backend.fill_zeroes(c).unwrap();
    assert_eq!(backend.take_commands(), run_of(Shader::Fill, "zeroes", &[], c, &[0]));
    backend.fill_ones_u8(c).unwrap();
    assert_eq!(backend.take_commands(), run_of(Shader::FillU8, "ones", &[], c, &[0]));
    backend.fill_zeroes_u8(c).unwrap();
    assert_eq!(backend.take_commands(), run_of(Shader::FillU8, "zeroes", &[], c, &[0]));
    backend.fill_ones_u32(c).unwrap();
    assert_eq!(backend.take_commands(), run_of(Shader::FillU32, "ones", &[], c, &[0]));
    backend.fill_zeroes_u32(c).unwrap();
    assert_eq!(backend.take_commands(), run_of(Shader::FillU32, "zeroes", &[], c, &[0]));

    let uniform = candle_wgpu::random::RandUniformParams { seed: 7, min: 0xbf80_0000, max: 0x3f80_0000 };
    backend.rand_uniform(c, &uniform).unwrap();
    assert_eq!(
        backend.take_commands(),
        run_of(Shader::Random, "rand_uniform", &[], c, &[7, 0xbf80_0000, 0x3f80_0000])
    );
    assert_eq!(backend.buffer_count(), 3);
}

#[test]
fn a_kernel_on_an_unknown_buffer_records_nothing() {
    let mut backend = started(0);
    let a = backend.create_buffer(16).unwrap();
    backend.take_commands();
    let stranger = BufferHandle { gpu_id: 0, index: 1 };
    assert_eq!(backend.affine(a, stranger, 0, 0), Err(WgpuBackendError::InvalidBuffer(stranger)));
    assert_eq!(backend.binary_add(stranger, a, a), Err(WgpuBackendError::InvalidBuffer(stranger)));
    assert_eq!(backend.fill_ones(stranger), Err(WgpuBackendError::InvalidBuffer(stranger)));
    assert_eq!(backend.sqrt(a, stranger), Err(WgpuBackendError::InvalidBuffer(stranger)));
    assert!(backend.take_commands().is_empty());
}

#[test]
fn conv2d_allocates_its_output() {
    let mut backend = started(0);
    let input = backend.create_buffer(100).unwrap();
    let kernel = backend.create_buffer(36).unwrap();
    backend.take_commands();
    let params = WgpuConvParams { input_w: 5, input_h: 5, kernel_w: 3, kernel_h: 3, ..Default::default() };
    let output = backend.conv2d(input, kernel, &params).unwrap();
    assert_eq!(output, BufferHandle { gpu_id: 0, index: 2 });
    assert_eq!(backend.lookup(output), Some(BufferRecord { size: 36 }));
    let mut expected = vec![Command::CreateBuffer { target: BufferRef::Registered(output), size: 36, usage: storage() }];
    expected.extend(run_of(Shader::Conv, "conv2d", &[input, kernel], output, &[1, 1, 5, 5, 1, 3, 3, 0, 0, 1, 1]));
    assert_eq!(backend.take_commands(), expected);
}

#[test]
fn conv2d_refuses_a_kernel_larger_than_the_padded_input() {
    let mut backend = started(0);
    let input = backend.create_buffer(100).unwrap();
    let kernel = backend.create_buffer(36).unwrap();
    backend.take_commands();
    let params = WgpuConvParams { input_w: 2, input_h: 5, kernel_w: 4, kernel_h: 3, ..Default::default() };
    assert_eq!(backend.conv2d(input, kernel, &params), Err(WgpuBackendError::InvalidGeometry));
    let no_kernel = WgpuConvParams { kernel_w: 0, ..Default::default() };
    assert_eq!(backend.conv2d(input, kernel, &no_kernel), Err(WgpuBackendError::InvalidGeometry));
    assert_eq!(backend.buffer_count(), 2);
    assert!(backend.take_commands().is_empty());
}

#[test]
fn conv2d_checks_the_geometry_before_the_handles() {
    let mut backend = started(0);
    let input = backend.create_buffer(100).unwrap();
    backend.take_commands();
    let stranger = BufferHandle { gpu_id: 0, index: 3 };
    let bad = WgpuConvParams { kernel_h: 0, ..Default::default() };
    assert_eq!(backend.conv2d(stranger, input, &bad), Err(WgpuBackendError::InvalidGeometry));
    let good = WgpuConvParams::default();
    assert_eq!(backend.conv2d(stranger, input, &good), Err(WgpuBackendError::InvalidBuffer(stranger)));
    assert_eq!(backend.conv2d(input, stranger, &good), Err(WgpuBackendError::InvalidBuffer(stranger)));
    assert_eq!(backend.buffer_count(), 1);
    assert!(backend.take_commands().is_empty());
}

#[test]
fn conv_output_size_follows_the_geometry() {
    let base = WgpuConvParams::default();
    assert_eq!(base.output_size(), Some(4));
    let padded = WgpuConvParams { padding_x: 1, padding_y: 1, input_w: 3, input_h: 3, kernel_w: 3, kernel_h: 3, ..base };
    assert_eq!(padded.output_size(), Some(36));
    let channels = WgpuConvParams { batch_size: 2, channels_out: 2, input_w: 3, input_h: 3, kernel_w: 3, kernel_h: 3, ..base };
    assert_eq!(channels.output_size(), Some(16));
    let dilated = WgpuConvParams { input_w: 7, input_h: 1, kernel_w: 3, dilation: 3, ..base };
    assert_eq!(dilated.output_size(), Some(4));
    let exact = WgpuConvParams { input_w: 2, padding_x: 1, kernel_w: 5, ..base };
    assert_eq!(exact.output_size(), Some(0));
    let strided = WgpuConvParams { input_w: 9, kernel_w: 3, stride: 2, ..base };
    assert_eq!(strided.output_size(), Some(28));
    let empty = WgpuConvParams { batch_size: 0, input_w: u32::MAX, input_h: u32::MAX, ..base };
    assert_eq!(empty.output_size(), Some(0));
    let huge = WgpuConvParams {
        batch_size: u32::MAX,
        channels_out: u32::MAX,
        input_w: u32::MAX,
        input_h: u32::MAX,
        ..base
    };
    assert_eq!(huge.output_size(), None);
    let largest = WgpuConvParams { batch_size: 1 << 31, channels_out: 1 << 31, input_w: 1, input_h: 1, ..base };
    assert_eq!(largest.output_size(), None);
    let fits = WgpuConvParams { batch_size: 1 << 31, channels_out: 1 << 30, input_w: 1, input_h: 1, ..base };
    assert_eq!(fits.output_size(), Some(1 << 63));
}

#[test]
fn default_conv_params_are_the_identity_geometry() {
    let d = WgpuConvParams::default();
    assert_eq!(
        d,
        WgpuConvParams {
            batch_size: 1,
            channels_in: 1,
            input_w: 1,
            input_h: 1,
            channels_out: 1,
            kernel_w: 1,
            kernel_h: 1,
            padding_x: 0,
            padding_y: 0,
            stride: 1,
            dilation: 1,
        }
    );
}

#[test]
fn get_shader_is_the_catalog_slot() {
    let backend = started(0);
    assert_eq!(backend.get_shader(Shader::Conv), 0);
    assert_eq!(backend.get_shader(Shader::Affine), 9);
    assert_eq!(backend.get_shader(Shader::Repeat), 13);
}

#[test]
fn the_context_asks_for_any_accelerator_with_downlevel_limits() {
    assert_eq!(
        WgpuBackend::adapter_request(),
        AdapterRequest {
            all_backends: true,
            power_preference: PowerPreference::NoPreference,
            force_fallback_adapter: false,
        }
    );
    assert_eq!(WgpuBackend::device_request(), DeviceRequest { required_limits: DeviceLimits::DownlevelDefaults });
}
