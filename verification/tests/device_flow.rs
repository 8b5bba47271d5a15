// The kernel families end to end: every test records operations with the
// library and hands the recorded commands to a software device, which checks
// each command as a compute device would and computes each kernel on the
// host.

use candle_wgpu::backend::{DeviceGrant, PollStatus, WgpuBackend};
use candle_wgpu::buffer::{BufferHandle, BufferRef, BufferUsages};
use candle_wgpu::command::{BindingKind, Command};
use candle_wgpu::conv::WgpuConvParams;
use candle_wgpu::dtype::DType;
use candle_wgpu::kernel::Shader;
use candle_wgpu::layout::Layout;
use candle_wgpu::random::RandUniformParams;
use candle_wgpu::storage::{WgpuDevice, WgpuStorage};
use std::collections::HashMap;
use std::time::Instant;

struct SoftBuffer {
    bytes: Vec<u8>,
    usage: BufferUsages,
    mapped: bool,
    map_pending: bool,
}

enum Work {
    Copy { source: BufferRef, destination: BufferRef, size: usize },
    Kernel { shader: Shader, entry_point: String, params: Vec<u32>, inputs: Vec<BufferRef>, output: BufferRef },
}

struct SoftDevice {
    modules: Vec<Shader>,
    buffers: HashMap<BufferRef, SoftBuffer>,
    encoded: Vec<Work>,
    in_flight: Vec<Work>,
}

fn floats(bytes: &[u8]) -> Vec<f32> {
    bytes.chunks_exact(4).map(|c| f32::from_ne_bytes([c[0], c[1], c[2], c[3]])).collect()
}

fn float_bytes(values: &[f32]) -> Vec<u8> {
    values.iter().flat_map(|v| v.to_ne_bytes()).collect()
}

fn words(bytes: &[u8]) -> Vec<u32> {
    bytes.chunks_exact(4).map(|c| u32::from_ne_bytes([c[0], c[1], c[2], c[3]])).collect()
}

fn store_floats(target: &mut Vec<u8>, values: &[f32]) {
    for (slot, value) in target.chunks_exact_mut(4).zip(values.iter()) {
        slot.copy_from_slice(&value.to_ne_bytes());
    }
}

impl SoftDevice {
    fn new() -> SoftDevice {
        SoftDevice { modules: Vec::new(), buffers: HashMap::new(), encoded: Vec::new(), in_flight: Vec::new() }
    }

    fn create(&mut self, target: BufferRef, bytes: Vec<u8>, usage: BufferUsages) {
        assert!(!self.buffers.contains_key(&target), "buffer created twice");
        if usage.map_read {
            assert!(!usage.copy_src && !usage.uniform && !usage.storage);
        }
        self.buffers.insert(target, SoftBuffer { bytes, usage, mapped: false, map_pending: false });
    }

    // Performs the commands in order and returns what a read of a mapping
    // handed out, if there was one.
    fn execute(&mut self, commands: Vec<Command>) -> Option<Vec<u8>> {
        let mut host = None;
        for command in commands {
            match command {
                Command::CompileShader { shader } => self.modules.push(shader),
                Command::CreateBuffer { target, size, usage } => {
                    self.create(target, vec![0u8; size as usize], usage)
                }
                Command::CreateBufferInit { target, contents, usage } => self.create(target, contents, usage),
                Command::CopyBufferToBuffer { source, source_offset, destination, destination_offset, size } => {
                    assert_eq!(source_offset, 0);
                    assert_eq!(destination_offset, 0);
                    let from = &self.buffers[&source];
                    let to = &self.buffers[&destination];
                    assert!(from.usage.copy_src && to.usage.copy_dst);
                    assert!(!from.mapped && !to.mapped);
                    assert!(size as usize <= from.bytes.len() && size as usize <= to.bytes.len());
                    assert!(source != destination);
                    self.encoded.push(Work::Copy { source, destination, size: size as usize });
                }
                Command::Dispatch { shader, entry_point, bindings, workgroups } => {
                    assert!(self.modules.contains(&shader), "module was never compiled");
                    assert_eq!((workgroups.x, workgroups.y, workgroups.z), (64, 1, 1));
                    let last = bindings.len() - 1;
                    let mut params = Vec::new();
                    let mut inputs = Vec::new();
                    for (slot, binding) in bindings.iter().enumerate() {
                        assert_eq!(binding.binding as usize, slot);
                        let buffer = &self.buffers[&binding.buffer];
                        assert!(!buffer.mapped);
                        match binding.kind {
                            BindingKind::Uniform => {
                                assert_eq!(slot, 0);
                                assert!(buffer.usage.uniform);
                                params = words(&buffer.bytes);
                            }
                            BindingKind::Storage { read_only } => {
                                assert!(buffer.usage.storage);
                                assert_eq!(read_only, slot != last);
                                if read_only {
                                    inputs.push(binding.buffer);
                                }
                            }
                        }
                    }
                    let output = bindings[last].buffer;
                    assert!(!inputs.contains(&output));
                    self.encoded.push(Work::Kernel { shader, entry_point, params, inputs, output });
                }
                Command::Submit => self.in_flight.append(&mut self.encoded),
                Command::MapRead { buffer } => {
                    let b = self.buffers.get_mut(&buffer).unwrap();
                    assert!(b.usage.map_read && !b.mapped && !b.map_pending);
                    b.map_pending = true;
                }
                Command::Wait => {
                    let work: Vec<Work> = self.in_flight.drain(..).collect();
                    for w in work {
                        self.retire(w);
                    }
                    for b in self.buffers.values_mut() {
                        if b.map_pending {
                            b.map_pending = false;
                            b.mapped = true;
                        }
                    }
                }
                Command::ReadMapped { buffer } => {
                    let b = &self.buffers[&buffer];
                    assert!(b.mapped, "read of a buffer that is not mapped");
                    host = Some(WgpuBackend::read_mapped(&b.bytes));
                }
                Command::Unmap { buffer } => {
                    let b = self.buffers.get_mut(&buffer).unwrap();
                    assert!(b.mapped);
                    b.mapped = false;
                }
                Command::Release { buffer } => {
                    assert_eq!(buffer, BufferRef::Scratch);
                    let b = self.buffers.remove(&buffer).unwrap();
                    assert!(!b.mapped);
                    for w in self.encoded.iter().chain(self.in_flight.iter()) {
                        if let Work::Copy { source, destination, .. } = w {
                            assert!(*source != buffer && *destination != buffer);
                        }
                    }
                }
            }
        }
        assert!(self.encoded.is_empty(), "work was encoded and never submitted");
        assert!(!self.buffers.contains_key(&BufferRef::Scratch), "a transient buffer was left behind");
        host
    }

    fn retire(&mut self, work: Work) {
        match work {
            Work::Copy { source, destination, size } => {
                let bytes = self.buffers[&source].bytes[..size].to_vec();
                self.buffers.get_mut(&destination).unwrap().bytes[..size].copy_from_slice(&bytes);
            }
            Work::Kernel { shader, entry_point, params, inputs, output } => {
                let ins: Vec<Vec<u8>> = inputs.iter().map(|r| self.buffers[r].bytes.clone()).collect();
                let out = &mut self.buffers.get_mut(&output).unwrap().bytes;
                run_kernel(shader, &entry_point, &params, &ins, out);
            }
        }
    }
}

fn run_kernel(shader: Shader, entry_point: &str, params: &[u32], ins: &[Vec<u8>], out: &mut Vec<u8>) {
    let count = out.len() / 4;
    match (shader, entry_point) {
        (Shader::Fill, "ones") => store_floats(out, &vec![1.0; count]),
        (Shader::Fill, "zeroes") => store_floats(out, &vec![0.0; count]),
        (Shader::FillU8, "ones") => out.iter_mut().for_each(|b| *b = 1),
        (Shader::FillU8, "zeroes") => out.iter_mut().for_each(|b| *b = 0),
        (Shader::FillU32, "ones") => out.chunks_exact_mut(4).for_each(|c| c.copy_from_slice(&1u32.to_ne_bytes())),
        (Shader::FillU32, "zeroes") => out.iter_mut().for_each(|b| *b = 0),
        (Shader::Affine, "affine") => {
            let (mul, add) = (f32::from_bits(params[0]), f32::from_bits(params[1]));
            let x = floats(&ins[0]);
            let y: Vec<f32> = (0..count.min(x.len())).map(|i| mul * x[i] + add).collect();
            store_floats(out, &y);
        }
        (Shader::BinaryOp, op) => {
            let (a, b) = (floats(&ins[0]), floats(&ins[1]));
            let y: Vec<f32> = (0..count.min(a.len()).min(b.len()))
                .map(|i| match op {
                    "add" => a[i] + b[i],
                    "sub" => a[i] - b[i],
                    "mul" => a[i] * b[i],
                    "div" => a[i] / b[i],
                    "max" => a[i].max(b[i]),
                    other => panic!("no entry point {other} in the binary kernels"),
                })
                .collect();
            store_floats(out, &y);
        }
        (Shader::UnaryOp, op) => {
            let x = floats(&ins[0]);
            let y: Vec<f32> = (0..count.min(x.len()))
                .map(|i| match op {
                    "sqrt" => x[i].sqrt(),
                    "neg" => -x[i],
                    "exp" => x[i].exp(),
                    "recip" => 1.0 / x[i],
                    other => panic!("no entry point {other} in the unary kernels"),
                })
                .collect();
            store_floats(out, &y);
        }
        (Shader::ConvertU8ToF32, "convert") => {
            let y: Vec<f32> = ins[0].iter().take(count).map(|b| *b as f32).collect();
            store_floats(out, &y);
        }
        (Shader::ConvertU32ToF32, "convert") => {
            let y: Vec<f32> = words(&ins[0]).iter().take(count).map(|w| *w as f32).collect();
            store_floats(out, &y);
        }
        (Shader::Conv, "conv2d") => {
            let y = conv2d(params, &floats(&ins[0]), &floats(&ins[1]), count);
            store_floats(out, &y);
        }
        (Shader::Copy, "copy") => {
            let (w, h, sx, sy) = (params[0] as usize, params[1] as usize, params[2] as usize, params[3] as usize);
            let x = floats(&ins[0]);
            let (ow, oh) = ((w + sx - 1) / sx, (h + sy - 1) / sy);
            let mut y = vec![0f32; count];
            for r in 0..oh {
                for c in 0..ow {
                    if r * ow + c < count {
                        y[r * ow + c] = x[r * sy * w + c * sx];
                    }
                }
            }
            store_floats(out, &y);
        }
        (Shader::CopySparse, "copy_sparse") => {
            let (batch, out_stride) = (params[0] as usize, params[1] as usize);
            let x = floats(&ins[0]);
            let mut y = floats(out);
            for b in 0..x.len() / batch {
                for i in 0..batch {
                    y[b * out_stride + i] = x[b * batch + i];
                }
            }
            store_floats(out, &y);
        }
        (Shader::Repeat, "repeat") => {
            let (batch, out_batch) = (params[0] as usize, params[1] as usize);
            let x = floats(&ins[0]);
            let y: Vec<f32> = (0..count).map(|j| x[(j / out_batch) * batch + (j % out_batch) % batch]).collect();
            store_floats(out, &y);
        }
        (Shader::UpsampleNearest, "upsample_nearest") => {
            let p: Vec<usize> = params.iter().map(|v| *v as usize).collect();
            let (planes, iw, ih, ow, oh) = (p[0] * p[1], p[2], p[3], p[4], p[5]);
            let x = floats(&ins[0]);
            let mut y = vec![0f32; count];
            for plane in 0..planes {
                for r in 0..oh {
                    for c in 0..ow {
                        y[(plane * oh + r) * ow + c] = x[(plane * ih + r * ih / oh) * iw + c * iw / ow];
                    }
                }
            }
            store_floats(out, &y);
        }
        (Shader::Random, "rand_uniform") => {
            let (mut state, min, max) = (params[0] as u64, f32::from_bits(params[1]), f32::from_bits(params[2]));
            let y: Vec<f32> = (0..count)
                .map(|_| {
                    state = state.wrapping_mul(6364136223846793005).wrapping_add(1442695040888963407);
                    let unit = ((state >> 40) as f32) / ((1u64 << 24) as f32);
                    min + (max - min) * unit
                })
                .collect();
            store_floats(out, &y);
        }
        (shader, entry) => panic!("no entry point {entry} in {shader:?}"),
    }
}

fn conv2d(p: &[u32], input: &[f32], kernel: &[f32], count: usize) -> Vec<f32> {
    let p: Vec<usize> = p.iter().map(|v| *v as usize).collect();
    let (batches, c_in, iw, ih, c_out, kw, kh) = (p[0], p[1], p[2], p[3], p[4], p[5], p[6]);
    let (pad_x, pad_y, stride, dilation) = (p[7], p[8], p[9], p[10]);
    let ow = iw + 2 * pad_x - (kw - 1) * dilation;
    let oh = ih + 2 * pad_y - (kh - 1) * dilation;
    let mut out = vec![0f32; count];
    for b in 0..batches {
        for co in 0..c_out {
            for y in 0..oh {
                for x in 0..ow {
                    let mut sum = 0f32;
                    for ci in 0..c_in {
                        for ky in 0..kh {
                            for kx in 0..kw {
                                let sy = (y * stride + ky * dilation) as isize - pad_y as isize;
                                let sx = (x * stride + kx * dilation) as isize - pad_x as isize;
                                if sy < 0 || sx < 0 || sy >= ih as isize || sx >= iw as isize {
                                    continue;
                                }
                                let at = ((b * c_in + ci) * ih + sy as usize) * iw + sx as usize;
                                if at < input.len() {
                                    sum += input[at] * kernel[((co * c_in + ci) * kh + ky) * kw + kx];
                                }
                            }
                        }
                    }
                    out[((b * c_out + co) * oh + y) * ow + x] = sum;
                }
            }
        }
    }
    out
}

// The library's context together with the device that performs its commands.
struct Gpu {
    backend: WgpuBackend,
    device: SoftDevice,
}

impl Gpu {
    fn new() -> Result<Gpu, candle_wgpu::error::WgpuBackendError> {
        let backend = WgpuBackend::new(DeviceGrant::Granted { gpu_id: 0 })?;
        let mut gpu = Gpu { backend, device: SoftDevice::new() };
        gpu.flush();
        Ok(gpu)
    }

    fn flush(&mut self) -> Option<Vec<u8>> {
        self.device.execute(self.backend.take_commands())
    }

    fn create_buffer(&mut self, size: u64) -> BufferHandle {
        let handle = self.backend.create_buffer(size).unwrap();
        self.flush();
        handle
    }

    fn create_buffer_with_bytes(&mut self, data: &[u8]) -> BufferHandle {
        let handle = self.backend.create_buffer_with_data(data).unwrap();
        self.flush();
        WgpuBackend::complete_upload(handle, PollStatus::Completed).unwrap()
    }

    fn create_buffer_with_data(&mut self, data: &[f32]) -> BufferHandle {
        self.create_buffer_with_bytes(&float_bytes(data))
    }

    fn read_buf(&mut self, handle: BufferHandle) -> Vec<u8> {
        self.backend.read_buf(handle).unwrap();
        let mapped = self.flush();
        WgpuBackend::complete_read(PollStatus::Completed, mapped).unwrap()
    }

    fn read_floats(&mut self, handle: BufferHandle) -> Vec<f32> {
        let bytes = self.read_buf(handle);
        WgpuBackend::read_buf_as(&bytes).into_iter().map(f32::from_bits).collect()
    }
}

#[test]
fn test_init() {
    Gpu::new().unwrap();
}

#[test]
fn test_create_buffer() {
    let data: [f32; 1024] = [1.0; 1024];
    let mut backend = Gpu::new().unwrap();
    backend.create_buffer_with_data(&data);
}

#[test]
fn test_affine() {
    let mut gpu = Gpu::new().unwrap();
    let input_buffer = gpu.create_buffer_with_data(&[1.0f32, 2.007f32]);
    let output_buffer = gpu.create_buffer(2 * 4);

    gpu.backend.affine(input_buffer, output_buffer, 2.4f32.to_bits(), 5.0f32.to_bits()).unwrap();

    let result = gpu.read_floats(output_buffer);

    assert_eq!(result, [7.4f32, 9.8168]);
}

#[test]
fn test_binary_mul() {
    let mut gpu = Gpu::new().unwrap();
    let lhs_buffer = gpu.create_buffer_with_data(&[1f32, 2.25]);
    let rhs_buffer = gpu.create_buffer_with_data(&[1f32, 0.5]);
    let output_buffer = gpu.create_buffer(4 * 2);

    gpu.backend.binary_mul(lhs_buffer, rhs_buffer, output_buffer).unwrap();

    let result = gpu.read_floats(output_buffer);

    assert_eq!(result, [1f32, 1.125]);
}

#[test]
fn test_conv2d() {
    // dims: (1, 1, 5, 5)
    let tensor: [f32; 25] = [2.0; 25];
    // dims: (1, 3, 3)
    let kernel = [0.5f32, 1.0, 0.5, 1.0, 2.0, 1.0, 0.5, 1.0, 0.5];
    // dims: (1, 1, 3, 3)
    let expected = [16f32; 9];

    let mut gpu = Gpu::new().unwrap();
    let input_buffer = gpu.create_buffer_with_data(&tensor);
    let kernel_buffer = gpu.create_buffer_with_data(&kernel);
    let result_buffer = gpu
        .backend
        .conv2d(
            input_buffer,
            kernel_buffer,
            &WgpuConvParams { input_w: 5, input_h: 5, kernel_w: 3, kernel_h: 3, ..Default::default() },
        )
        .unwrap();
    let result = gpu.read_floats(result_buffer);

    assert_eq!(result.len(), expected.len());
    assert_eq!(result, expected);
}

#[test]
fn test_conv1d() {
    // dims (2, 3, 3, 1)
    let tensor = [[2.0; 9], [1.0f32; 9]].concat();
    // dims (2, 3, 3, 1)
    let kernel = [1.0f32; 18];
    // dims (2, 2, 1, 1)
    let expected = [18f32, 18.0, 9.0, 9.0];

    let mut gpu = Gpu::new().unwrap();
    let input_buffer = gpu.create_buffer_with_data(&tensor);
    let kernel_buffer = gpu.create_buffer_with_data(&kernel);
    let output_buffer = gpu
        .backend
        .conv2d(
            input_buffer,
            kernel_buffer,
            &WgpuConvParams {
                batch_size: 2,
                input_w: 3,
                input_h: 3,
                kernel_w: 3,
                kernel_h: 3,
                channels_out: 2,
                ..Default::default()
            },
        )
        .unwrap();
    let contents = gpu.read_floats(output_buffer);

    assert_eq!(contents.len(), expected.len());
    assert_eq!(contents, expected.as_slice());
}

#[test]
fn test_conv1d_1() {
    // dims (1, 4, 5, 1)
    let tensor = [
        0.4f32, -0.8, -0.1, -1.6, 1.2, -0.9, -1.7, 0.1, 0.2, 0.4, 1.8, -0.2, 2.2, -0.7, 0.2, 1.3, -0.7, 0.3, -1.0,
        0.6,
    ];
    // dims (2, 4, 3, 1)
    let kernel = [
        -0.8f32, -0.3, 0.0, 1.3, 0.2, -1.9, 1.4, 0.9, 0.9, -0.7, -1.1, 0.9, -1.2, 1.8, 1.6, -1.4, 0.4, -1.2, 0.7,
        1.6, -0.6, -0.1, -1.4, 0.6,
    ];
    // dims (1, 2, 3, 1)
    let expected = [2.67, -1.57, 4.03, -0.97, 3.25, 0.65];

    let mut gpu = Gpu::new().unwrap();
    let input_buffer = gpu.create_buffer_with_data(&tensor);
    let kernel_buffer = gpu.create_buffer_with_data(&kernel);

    let output_buffer = gpu
        .backend
        .conv2d(
            input_buffer,
            kernel_buffer,
            &WgpuConvParams {
                input_w: 5,
                input_h: 1,
                kernel_w: 3,
                kernel_h: 1,
                channels_in: 4,
                channels_out: 2,
                ..Default::default()
            },
        )
        .unwrap();

    let contents =
        gpu.read_floats(output_buffer).into_iter().map(|it| (it * 100f32).round() / 100f32).collect::<Vec<f32>>();

    assert_eq!(contents.len(), 6);
    assert_eq!(contents, expected);
}

#[test]
fn test_conv2d_huge() {
    // dims (1, 1, 512, 512)
    let tensor = vec![1f32; 262144];
    // dims (1, 1, 3, 3)
    let kernel = [-0.8f32, -0.3, 0.0, 1.3, 0.2, -1.9, 1.4, 0.9, 0.9];

    let mut gpu = Gpu::new().unwrap();
    let input_buffer = gpu.create_buffer_with_data(&tensor);
    let kernel_buffer = gpu.create_buffer_with_data(&kernel);

    let start = Instant::now();

    gpu.backend
        .conv2d(
            input_buffer,
            kernel_buffer,
            &WgpuConvParams { input_w: 512, input_h: 512, kernel_w: 3, kernel_h: 3, ..Default::default() },
        )
        .unwrap();
    gpu.flush();

    println!("Took: {:?}", Instant::now().duration_since(start));
}

#[test]
fn test_conv2d_padding() {
    // dims (1, 1, 3, 3)
    let tensor = [1f32; 9];
    // dims (1, 1, 3, 3)
    let kernel = [1.0f32; 9];
    // dims (1, 1, 3, 3)
    let expected = [4f32, 6.0, 4.0, 6.0, 9.0, 6.0, 4.0, 6.0, 4.0];

    let mut gpu = Gpu::new().unwrap();
    let input_buffer = gpu.create_buffer_with_data(&tensor);
    let kernel_buffer = gpu.create_buffer_with_data(&kernel);
    let output_buffer = gpu
        .backend
        .conv2d(
            input_buffer,
            kernel_buffer,
            &WgpuConvParams {
                padding_x: 1,
                padding_y: 1,
                input_w: 3,
                input_h: 3,
                kernel_w: 3,
                kernel_h: 3,
                ..Default::default()
            },
        )
        .unwrap();
    let contents = gpu.read_floats(output_buffer);

    assert_eq!(contents.len(), expected.len());
    assert_eq!(contents, expected);
}

#[test]
fn test_convert_u8_to_f32() {
    let mut gpu = Gpu::new().unwrap();
    let input_buffer = gpu.create_buffer_with_bytes(&[1u8; 8]);
    let output_buffer = gpu.create_buffer(8 * 4);

    gpu.backend.convert_u8_to_f32(input_buffer, output_buffer).unwrap();

    let result = gpu.read_floats(output_buffer);

    assert_eq!(result, &[1.0f32; 8])
}

#[test]
fn test_copy() {
    let mut gpu = Gpu::new().unwrap();
    let input = [
        1f32, 0.0, 1.0, 0.0, 1.0, 0.0, 0.0, 0.0, 0.0, 0.0, 1.0, 0.0, 1.0, 0.0, 1.0, 0.0, 0.0, 0.0, 0.0, 0.0, 1.0,
        0.0, 1.0, 0.0, 1.0,
    ];
    let input_buffer = gpu.create_buffer_with_data(&input);
    let output_buffer = gpu.create_buffer(3 * 3 * 4);

    gpu.backend.copy(input_buffer, output_buffer, 5, 5, 2, 2).unwrap();

    let result = gpu.read_floats(output_buffer);

    assert_eq!(result.len(), 9);
    assert_eq!(result, [1f32; 9]);
}

#[test]
fn test_copy_2() {
    let mut gpu = Gpu::new().unwrap();
    let input = [
        1f32, 0.0, 1.0, 0.0, 1.0, 0.0, 0.0, 0.0, 0.0, 0.0, 0.0, 0.0, 1.0, 0.0, 1.0, 0.0, 1.0, 0.0, 0.0, 0.0, 0.0,
        0.0, 0.0, 0.0, 1.0, 0.0, 1.0, 0.0, 1.0, 0.0,
    ];
    let input_buffer = gpu.create_buffer_with_data(&input);
    let output_buffer = gpu.create_buffer(3 * 3 * 4);

    gpu.backend.copy(input_buffer, output_buffer, 6, 5, 2, 2).unwrap();

    let result = gpu.read_floats(output_buffer);

    assert_eq!(result.len(), 9);
    assert_eq!(result, [1f32; 9]);
}

#[test]
fn test_copy_3() {
    let mut gpu = Gpu::new().unwrap();
    let input = [1f32, 0.0, 1.0, 0.0, 1.0, 0.0, 1.0, 0.0, 1.0, 0.0, 1.0, 0.0, 1.0, 0.0, 1.0, 0.0, 1.0, 0.0];
    let input_buffer = gpu.create_buffer_with_data(&input);
    let output_buffer = gpu.create_buffer(3 * 3 * 4);

    gpu.backend.copy(input_buffer, output_buffer, 6, 3, 2, 1).unwrap();

    let result = gpu.read_floats(output_buffer);

    assert_eq!(result.len(), 9);
    assert_eq!(result, [1f32; 9]);
}

#[test]
fn test_copy_sparse() {
    let mut gpu = Gpu::new().unwrap();
    let input_buffer = gpu.create_buffer_with_data(&[1.0f32, 2.0, 3.0, 4.0]);
    let output_buffer = gpu.create_buffer(8 * 4);

    gpu.backend.copy_sparse(input_buffer, output_buffer, 2, 4).unwrap();

    let result = gpu.read_floats(output_buffer);

    assert_eq!(result, [1.0f32, 2.0, 0.0, 0.0, 3.0, 4.0, 0.0, 0.0]);
}

#[test]
fn test_fill_ones() {
    let mut gpu = Gpu::new().unwrap();
    let output_buffer = gpu.create_buffer(256 * 4);

    gpu.backend.fill_ones(output_buffer).unwrap();

    let floats: Vec<f32> = gpu.read_floats(output_buffer);

    assert_eq!(floats.len(), 256);
    assert_eq!(floats.iter().sum::<f32>(), 256.0);
    assert_eq!(floats.first().unwrap(), &1.0);
    assert_eq!(floats.last().unwrap(), &1.0);
}

#[test]
fn test_fill_zeroes() {
    let mut gpu = Gpu::new().unwrap();
    let output_buffer = gpu.create_buffer(256 * 4);

    gpu.backend.fill_zeroes(output_buffer).unwrap();

    let floats: Vec<f32> = gpu.read_floats(output_buffer);

    assert_eq!(floats.len(), 256);
    assert_eq!(floats.iter().sum::<f32>(), 0.0);
}

#[test]
fn test_fill_ones_u8() {
    let mut gpu = Gpu::new().unwrap();
    let output_buffer = gpu.create_buffer(256);

    gpu.backend.fill_ones_u8(output_buffer).unwrap();

    let result = gpu.read_buf(output_buffer);

    assert_eq!(result.len(), 256);
    assert_eq!(result.iter().map(|v| u32::from(*v)).sum::<u32>(), 256);
    assert_eq!(result.first().unwrap(), &1);
    assert_eq!(result.last().unwrap(), &1);
}

#[test]
fn test_fill_zeroes_u8() {
    let mut gpu = Gpu::new().unwrap();
    let output_buffer = gpu.create_buffer(256);

    gpu.backend.fill_zeroes_u8(output_buffer).unwrap();

    let result = gpu.read_buf(output_buffer);

    assert_eq!(result.len(), 256);
    assert_eq!(result.iter().map(|v| u32::from(*v)).sum::<u32>(), 0);
    assert_eq!(result.first().unwrap(), &0);
    assert_eq!(result.last().unwrap(), &0);
}

#[test]
fn test_fill_random() {
    let mut gpu = Gpu::new().unwrap();

    let (min, max) = (-30f32, 30f32);
    let params = RandUniformParams { min: min.to_bits(), max: max.to_bits(), seed: 299792458 };

    let output_buffer_size = 16_000_000 * 4;
    let output_buffer_id = gpu.create_buffer(output_buffer_size as u64);

    let start = Instant::now();
    gpu.backend.rand_uniform(output_buffer_id, &params).unwrap();
    println!("Took: {:?}", Instant::now().duration_since(start));

    let start = Instant::now();
    gpu.backend.rand_uniform(output_buffer_id, &params).unwrap();
    println!("Took: {:?}", Instant::now().duration_since(start));

    let result = gpu.read_floats(output_buffer_id);

    assert_eq!(result.len(), 16_000_000);
    assert!(result.iter().all(|v| { *v >= min && *v <= max }));

    // mean must approach zero given a large enough sample size
    let mean = result.iter().sum::<f32>() / result.len() as f32;
    assert!(mean >= -1.0);
    assert!(mean <= 1.0);
}

#[test]
fn test_repeat() {
    let mut gpu = Gpu::new().unwrap();
    let input_buffer = gpu.create_buffer_with_data(&[1.0f32, 2.0, 3.0, 4.0]);
    let output_buffer = gpu.create_buffer(8 * 4);

    gpu.backend.repeat(input_buffer, output_buffer, 2, 4).unwrap();

    let result = gpu.read_floats(output_buffer);

    assert_eq!(result, [1.0f32, 2.0, 1.0, 2.0, 3.0, 4.0, 3.0, 4.0]);
}

#[test]
fn test_sqrt() {
    let mut gpu = Gpu::new().unwrap();
    let operand_buffer = gpu.create_buffer_with_data(&[9f32, 25.0]);
    let output_buffer = gpu.create_buffer(4 * 2);

    gpu.backend.sqrt(operand_buffer, output_buffer).unwrap();

    let result = gpu.read_floats(output_buffer);

    assert_eq!(result, [3f32, 5.0]);
}

#[test]
fn test_upsample_nearest_2d() {
    let mut gpu = Gpu::new().unwrap();
    let input = gpu.create_buffer_with_data(&[1.0f32, 2.0, 3.0, 4.0]);
    let output = gpu.create_buffer(4 * 4 * 4);

    gpu.backend.upsample_nearest(1, 1, 2, 2, 4, 4, input, output).unwrap();

    let result = gpu.read_floats(output);

    assert_eq!(result, [1f32, 1.0, 2.0, 2.0, 1.0, 1.0, 2.0, 2.0, 3.0, 3.0, 4.0, 4.0, 3.0, 3.0, 4.0, 4.0]);
}

#[test]
fn binary_kernels_share_one_module() {
    let mut gpu = Gpu::new().unwrap();
    let lhs = gpu.create_buffer_with_data(&[1f32, 2.25, -3.0]);
    let rhs = gpu.create_buffer_with_data(&[4f32, 0.5, 1.5]);
    let sum = gpu.create_buffer(12);
    let difference = gpu.create_buffer(12);
    let quotient = gpu.create_buffer(12);
    let larger = gpu.create_buffer(12);
    gpu.backend.binary_add(lhs, rhs, sum).unwrap();
    gpu.backend.binary_sub(lhs, rhs, difference).unwrap();
    gpu.backend.binary_div(lhs, rhs, quotient).unwrap();
    gpu.backend.binary_max(lhs, rhs, larger).unwrap();
    assert_eq!(gpu.read_floats(sum), [5f32, 2.75, -1.5]);
    assert_eq!(gpu.read_floats(difference), [-3f32, 1.75, -4.5]);
    assert_eq!(gpu.read_floats(quotient), [0.25f32, 4.5, -2.0]);
    assert_eq!(gpu.read_floats(larger), [4f32, 2.25, 1.5]);
}

#[test]
fn unary_kernels_share_one_module() {
    let mut gpu = Gpu::new().unwrap();
    let operand = gpu.create_buffer_with_data(&[4f32, 0.25]);
    let negated = gpu.create_buffer(8);
    let inverse = gpu.create_buffer(8);
    let power = gpu.create_buffer(8);
    gpu.backend.neg(operand, negated).unwrap();
    gpu.backend.recip(operand, inverse).unwrap();
    gpu.backend.exp(operand, power).unwrap();
    assert_eq!(gpu.read_floats(negated), [-4f32, -0.25]);
    assert_eq!(gpu.read_floats(inverse), [0.25f32, 4.0]);
    assert_eq!(gpu.read_floats(power), [4f32.exp(), 0.25f32.exp()]);
}

#[test]
fn fills_of_32_bit_integers() {
    let mut gpu = Gpu::new().unwrap();
    let buffer = gpu.create_buffer(3 * 4);
    gpu.backend.fill_ones_u32(buffer).unwrap();
    let bytes = gpu.read_buf(buffer);
    assert_eq!(WgpuBackend::read_buf_as(&bytes), vec![1u32, 1, 1]);
    gpu.backend.fill_zeroes_u32(buffer).unwrap();
    let bytes = gpu.read_buf(buffer);
    assert_eq!(WgpuBackend::read_buf_as(&bytes), vec![0u32, 0, 0]);
}

#[test]
fn convert_u32_runs_its_own_kernel() {
    let mut gpu = Gpu::new().unwrap();
    let values: Vec<u8> = [7u32, 300, 70000].iter().flat_map(|w| w.to_ne_bytes()).collect();
    let input = gpu.create_buffer_with_bytes(&values);
    let output = gpu.create_buffer(12);
    gpu.backend.convert_u32_to_f32(input, output).unwrap();
    assert_eq!(gpu.read_floats(output), [7f32, 300.0, 70000.0]);
}

#[test]
fn upload_then_read_back_returns_the_bytes() {
    let mut gpu = Gpu::new().unwrap();
    for payload in [vec![], vec![9u8], vec![1u8, 2, 3], vec![0u8, 255, 7, 8, 250, 1, 2], (0..=255u8).collect::<Vec<u8>>()] {
        let handle = gpu.create_buffer_with_bytes(&payload);
        assert_eq!(gpu.read_buf(handle), payload);
    }
}

#[test]
fn a_new_buffer_holds_zeroes() {
    let mut gpu = Gpu::new().unwrap();
    let handle = gpu.create_buffer(5);
    assert_eq!(gpu.read_buf(handle), vec![0u8; 5]);
}

#[test]
fn reads_do_not_disturb_other_buffers() {
    let mut gpu = Gpu::new().unwrap();
    let first = gpu.create_buffer_with_bytes(&[1, 2, 3, 4]);
    let second = gpu.create_buffer_with_bytes(&[5, 6, 7, 8, 9, 10, 11, 12]);
    assert_eq!(gpu.read_buf(second), vec![5, 6, 7, 8, 9, 10, 11, 12]);
    assert_eq!(gpu.read_buf(first), vec![1, 2, 3, 4]);
    assert_eq!(gpu.read_buf(second), vec![5, 6, 7, 8, 9, 10, 11, 12]);
}

// The router together with the device that performs its commands.
struct Tensors {
    device: WgpuDevice,
    soft: SoftDevice,
}

impl Tensors {
    fn new() -> Tensors {
        let device = WgpuDevice::new(DeviceGrant::Granted { gpu_id: 0 }).unwrap();
        let mut tensors = Tensors { device, soft: SoftDevice::new() };
        tensors.flush();
        tensors
    }

    fn flush(&mut self) -> Option<Vec<u8>> {
        self.soft.execute(self.device.backend.take_commands())
    }

    fn upload(&mut self, values: &[f32]) -> WgpuStorage {
        let storage = self.device.storage_from_cpu_storage(&float_bytes(values), DType::F32).unwrap();
        self.flush();
        storage
    }

    fn read(&mut self, storage: &WgpuStorage) -> Vec<u8> {
        let size = storage.to_cpu_storage(&mut self.device).unwrap();
        let mapped = self.flush();
        let bytes = WgpuBackend::complete_read(PollStatus::Completed, mapped).unwrap();
        assert_eq!(bytes.len() as u64, size);
        bytes
    }

    fn read_floats(&mut self, storage: &WgpuStorage) -> Vec<f32> {
        let bytes = self.read(storage);
        WgpuBackend::read_buf_as(&bytes).into_iter().map(f32::from_bits).collect()
    }
}

fn contiguous(dims: &[usize]) -> Layout {
    let mut stride = vec![1; dims.len()];
    for axis in (0..dims.len().saturating_sub(1)).rev() {
        stride[axis] = stride[axis + 1] * dims[axis + 1];
    }
    Layout::new(dims.to_vec(), stride, 0)
}

#[test]
fn affine_scales_and_shifts_every_element() {
    let mut t = Tensors::new();
    let values = [1.0f32, 2.007, -3.5, 0.0, 1e6, -0.125];
    let x = t.upload(&values);
    for (a, b) in [(2.4f32, 5.0f32), (0.0, 1.0), (-1.5, 0.25), (1.0, 0.0)] {
        let y = x.affine(&mut t.device, &contiguous(&[2, 3]), a.to_bits(), b.to_bits()).unwrap();
        let expected: Vec<f32> = values.iter().map(|v| a * v + b).collect();
        assert_eq!(t.read_floats(&y), expected);
    }
    assert_eq!(t.read_floats(&x), values);
}

#[test]
fn host_data_comes_back_as_it_went() {
    let mut t = Tensors::new();
    for (dtype, bytes) in [
        (DType::U8, vec![1u8, 2, 3]),
        (DType::F16, vec![0u8, 60, 0, 64]),
        (DType::U32, (0..16u8).collect::<Vec<u8>>()),
        (DType::F64, (0..64u8).rev().collect::<Vec<u8>>()),
        (DType::F32, vec![]),
    ] {
        let storage = t.device.storage_from_cpu_storage(&bytes, dtype).unwrap();
        t.flush();
        assert_eq!(t.read(&storage), bytes);
    }
}

#[test]
fn ones_and_zeros_fill_the_requested_elements() {
    let mut t = Tensors::new();
    let ones = t.device.ones_impl(&vec![4, 8], DType::F32).unwrap();
    assert_eq!(t.read_floats(&ones), vec![1f32; 32]);
    let zeros = t.device.zeros_impl(&vec![4, 8], DType::F32).unwrap();
    assert_eq!(t.read_floats(&zeros), vec![0f32; 32]);
    let ones = t.device.ones_impl(&vec![7], DType::U8).unwrap();
    assert_eq!(t.read(&ones), vec![1u8; 7]);
    let zeros = t.device.zeros_impl(&vec![7], DType::U8).unwrap();
    assert_eq!(t.read(&zeros), vec![0u8; 7]);
    let ones = t.device.ones_impl(&vec![3, 2], DType::U32).unwrap();
    assert_eq!(WgpuBackend::read_buf_as(&t.read(&ones)), vec![1u32; 6]);
    let zeros = t.device.zeros_impl(&vec![3, 2], DType::U32).unwrap();
    assert_eq!(WgpuBackend::read_buf_as(&t.read(&zeros)), vec![0u32; 6]);
    let none = t.device.zeros_impl(&vec![3, 0], DType::F32).unwrap();
    assert_eq!(t.read(&none), Vec::<u8>::new());
}

#[test]
fn binary_operations_combine_element_by_element() {
    let mut t = Tensors::new();
    let a = t.upload(&[1.0f32, 2.25]);
    let b = t.upload(&[1.0f32, 0.5]);
    let l = contiguous(&[2]);
    let product = a.binary_impl(&mut t.device, "mul", &b, &l, &l).unwrap();
    let sum = a.binary_impl(&mut t.device, "add", &b, &l, &l).unwrap();
    let difference = a.binary_impl(&mut t.device, "sub", &b, &l, &l).unwrap();
    let quotient = a.binary_impl(&mut t.device, "div", &b, &l, &l).unwrap();
    let larger = a.binary_impl(&mut t.device, "maximum", &b, &l, &l).unwrap();
    assert_eq!(t.read_floats(&product), [1.0f32, 1.125]);
    assert_eq!(t.read_floats(&sum), [2.0f32, 2.75]);
    assert_eq!(t.read_floats(&difference), [0.0f32, 1.75]);
    assert_eq!(t.read_floats(&quotient), [1.0f32, 4.5]);
    assert_eq!(t.read_floats(&larger), [1.0f32, 2.25]);
}

#[test]
fn unary_operations_reach_their_kernels() {
    let mut t = Tensors::new();
    let x = t.upload(&[9f32, 25.0]);
    let l = contiguous(&[2]);
    let root = x.unary_impl(&mut t.device, "sqrt", &l).unwrap();
    let negated = x.unary_impl(&mut t.device, "neg", &l).unwrap();
    let inverse = x.unary_impl(&mut t.device, "recip", &l).unwrap();
    assert_eq!(t.read_floats(&root), [3f32, 5.0]);
    assert_eq!(t.read_floats(&negated), [-9f32, -25.0]);
    assert_eq!(t.read_floats(&inverse), [1.0 / 9f32, 0.04]);
}

#[test]
fn convolution_of_a_uniform_input() {
    let mut t = Tensors::new();
    let input = t.upload(&[2.0f32; 25]);
    let kernel = t.upload(&[0.5f32, 1.0, 0.5, 1.0, 2.0, 1.0, 0.5, 1.0, 0.5]);
    let out = input
        .conv2d(&mut t.device, &contiguous(&[1, 1, 5, 5]), &kernel, &contiguous(&[1, 1, 3, 3]), 1, 0)
        .unwrap();
    assert_eq!(t.read_floats(&out), [16f32; 9]);
}

#[test]
fn convolution_along_one_axis() {
    let mut t = Tensors::new();
    let input = t.upload(&[1f32, 2.0, 3.0, 4.0, 5.0, 10.0, 20.0, 30.0, 40.0, 50.0]);
    let kernel = t.upload(&[1f32, 0.0, -1.0, 0.5, 0.5, 0.5]);
    let out = input
        .conv1d(&mut t.device, &contiguous(&[1, 2, 5]), &kernel, &contiguous(&[1, 2, 3]), 1, 0)
        .unwrap();
    assert_eq!(t.read_floats(&out), [28f32, 43.0, 58.0]);
}

#[test]
fn upsampling_repeats_each_element_in_its_block() {
    let mut t = Tensors::new();
    let input = t.upload(&[1f32, 2.0, 3.0, 4.0]);
    let out = input.upsample_nearest2d(&mut t.device, &contiguous(&[1, 1, 2, 2]), 4, 4).unwrap();
    assert_eq!(
        t.read_floats(&out),
        [1f32, 1.0, 2.0, 2.0, 1.0, 1.0, 2.0, 2.0, 3.0, 3.0, 4.0, 4.0, 3.0, 3.0, 4.0, 4.0]
    );
}

#[test]
fn a_copy_with_unit_steps_reproduces_the_source() {
    let mut gpu = Gpu::new().unwrap();
    let values = [0.5f32, -1.0, f32::MAX, f32::MIN_POSITIVE, 7.0, -0.0, 3.25, 1e-30, 42.0];
    let source = gpu.create_buffer_with_data(&values);
    let target = gpu.create_buffer(9 * 4);
    gpu.backend.copy(source, target, 3, 3, 1, 1).unwrap();
    let copied = gpu.read_buf(target);
    assert_eq!(copied, gpu.read_buf(source));
    assert_eq!(copied, float_bytes(&values));

    let mut t = Tensors::new();
    let source = t.upload(&values);
    let target = t.device.zeros_impl(&vec![3, 3], DType::F32).unwrap();
    source.copy_strided_src(&mut t.device, &target, 0, &Layout::new(vec![3, 3], vec![1, 1], 0)).unwrap();
    assert_eq!(t.read(&target), float_bytes(&values));
}

#[test]
fn conversions_keep_the_values() {
    let mut t = Tensors::new();
    let bytes = t.device.storage_from_cpu_storage(&[0, 1, 2, 255], DType::U8).unwrap();
    let converted = bytes.to_dtype(&mut t.device, &contiguous(&[4]), DType::F32).unwrap();
    assert_eq!(t.read_floats(&converted), [0f32, 1.0, 2.0, 255.0]);
    let words: Vec<u8> = [3u32, 1 << 20].iter().flat_map(|w| w.to_ne_bytes()).collect();
    let words = t.device.storage_from_cpu_storage(&words, DType::U32).unwrap();
    let converted = words.to_dtype(&mut t.device, &contiguous(&[2]), DType::F32).unwrap();
    assert_eq!(t.read_floats(&converted), [3f32, 1048576.0]);
}

#[test]
fn a_failed_mapping_fails_the_read() {
    let mut gpu = Gpu::new().unwrap();
    let handle = gpu.create_buffer_with_bytes(&[1, 2, 3, 4]);
    gpu.backend.read_buf(handle).unwrap();
    gpu.flush();
    assert_eq!(
        WgpuBackend::complete_read(PollStatus::Completed, None),
        Err(candle_wgpu::error::WgpuBackendError::BufferError)
    );
}
