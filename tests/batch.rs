use gfx_core::batch::{Texture2DBatch, Texture2DInstance, ONE_F32_BITS};
use gfx_core::device::RenderDevice;
use gfx_core::error::LifecycleError;

fn bits16(v: [f32; 16]) -> [u32; 16] {
    let mut r = [0u32; 16];
    for i in 0..16 {
        r[i] = v[i].to_bits();
    }
    r
}

fn bits4(v: [f32; 4]) -> [u32; 4] {
    [v[0].to_bits(), v[1].to_bits(), v[2].to_bits(), v[3].to_bits()]
}

fn identity_scaled(s: f32) -> [u32; 16] {
    bits16([s, 0.0, 0.0, 0.0, 0.0, s, 0.0, 0.0, 0.0, 0.0, s, 0.0, 0.0, 0.0, 0.0, 1.0])
}

fn instance(k: f32) -> Texture2DInstance {
    Texture2DInstance::new(
        identity_scaled(k),
        bits4([k, 0.5, 0.25, 1.0]),
        Texture2DInstance::default_uv_transform(),
        true,
    )
}

fn batch_of_three() -> Texture2DBatch {
    let mut b = Texture2DBatch::new();
    for k in 1..=3 {
        let i = instance(k as f32);
        assert_eq!(b.add_instance(i.transform, i.color, i.uv_transform, i.visible), k);
    }
    b
}

#[test]
fn default_uv_transform_is_unit_scale_zero_offset() {
    assert_eq!(Texture2DInstance::default_uv_transform(), bits4([1.0, 1.0, 0.0, 0.0]));
}

#[test]
fn extras_carry_visibility() {
    let mut i = instance(1.0);
    assert_eq!(i.create_extras_vec4(), [1.0f32.to_bits(), 0, 0, 0]);
    i.visible = false;
    assert_eq!(i.create_extras_vec4(), [0, 0, 0, 0]);
    assert_eq!(ONE_F32_BITS, 1.0f32.to_bits());
}

#[test]
fn create_buffers_lays_out_streams_in_order() {
    let instances = vec![instance(1.0), instance(2.0)];
    let (t, c, u, e) = Texture2DBatch::create_buffers(&instances);
    assert_eq!(t.len(), 32);
    assert_eq!(c.len(), 8);
    assert_eq!(u.len(), 8);
    assert_eq!(e.len(), 8);
    assert_eq!(&t[16..32], &identity_scaled(2.0)[..]);
    assert_eq!(c[4], 2.0f32.to_bits());
    assert_eq!(&u[0..4], &bits4([1.0, 1.0, 0.0, 0.0])[..]);
    assert_eq!(e[4], 1.0f32.to_bits());
}

#[test]
fn batch_lifecycle() {
    let mut device = RenderDevice::new();
    let mut b = Texture2DBatch::new();
    assert!(matches!(&b, Texture2DBatch::PreLoad { instances } if instances.is_empty()));
    b = batch_of_three();
    let bufs = device.load_texture2d_batch(&mut b, 11, 12, 13).unwrap();
    assert_eq!(bufs.transforms.len(), 48);
    assert_eq!(bufs.colors.len(), 12);
    assert_eq!(bufs.uv_transforms.len(), 12);
    match &b {
        Texture2DBatch::Loaded { instances, mbo, cbo, uvto } => {
            assert_eq!(instances.len(), 3);
            assert!(*mbo != 0 && *cbo != 0 && *uvto != 0);
        }
        _ => panic!("expected a resident batch"),
    }
    let replacement = instance(9.0);
    let writes = device.update_texture2d_batch_instance(&mut b, 1, replacement).unwrap();
    assert_eq!(writes.len(), 3);
    assert_eq!((writes[0].buffer, writes[0].offset), (11, 64));
    assert_eq!(writes[0].words, identity_scaled(9.0).to_vec());
    assert_eq!((writes[1].buffer, writes[1].offset), (12, 16));
    assert_eq!(writes[1].words, bits4([9.0, 0.5, 0.25, 1.0]).to_vec());
    assert_eq!((writes[2].buffer, writes[2].offset), (13, 16));
    match &b {
        Texture2DBatch::Loaded { instances, .. } => {
            assert_eq!(instances[1], replacement);
            assert_eq!(instances[0], instance(1.0));
            assert_eq!(instances[2], instance(3.0));
        }
        _ => panic!("expected a resident batch"),
    }
    assert_eq!(device.dispose_texture2d_batch(&mut b), Ok((11, 12, 13)));
    match &b {
        Texture2DBatch::Disposed { instances } => {
            assert_eq!(instances.len(), 3);
            assert_eq!(instances[1], replacement);
        }
        _ => panic!("expected a disposed batch"),
    }
    assert_eq!(device.dispose_texture2d_batch(&mut b), Err(LifecycleError::AlreadyDisposed));
}

#[test]
fn repeated_update_is_idempotent() {
    let mut device = RenderDevice::new();
    let mut b = batch_of_three();
    device.load_texture2d_batch(&mut b, 1, 2, 3).unwrap();
    let v = instance(5.0);
    let first = device.update_texture2d_batch_instance(&mut b, 2, v).unwrap();
    let after_once = b.clone();
    let second = device.update_texture2d_batch_instance(&mut b, 2, v).unwrap();
    assert_eq!(first, second);
    match (&after_once, &b) {
        (Texture2DBatch::Loaded { instances: a, .. }, Texture2DBatch::Loaded { instances: c, .. }) => {
            assert_eq!(a, c)
        }
        _ => panic!("expected resident batches"),
    }
}

#[test]
fn add_instance_refused_once_loaded() {
    let mut device = RenderDevice::new();
    let mut b = batch_of_three();
    device.load_texture2d_batch(&mut b, 1, 2, 3).unwrap();
    let i = instance(4.0);
    assert_eq!(b.add_instance(i.transform, i.color, i.uv_transform, i.visible), -1);
}

#[test]
fn load_refusals() {
    let mut device = RenderDevice::new();
    let mut b = batch_of_three();
    assert_eq!(device.load_texture2d_batch(&mut b, 1, 0, 3).err(), Some(LifecycleError::NullHandle));
    assert!(matches!(b, Texture2DBatch::PreLoad { .. }));
    device.load_texture2d_batch(&mut b, 1, 2, 3).unwrap();
    assert_eq!(device.load_texture2d_batch(&mut b, 4, 5, 6).err(), Some(LifecycleError::NotPreLoad));
    let mut pre = batch_of_three();
    assert_eq!(
        device.update_texture2d_batch_instance(&mut pre, 0, instance(1.0)).err(),
        Some(LifecycleError::NotLoaded)
    );
    assert_eq!(device.dispose_texture2d_batch(&mut pre), Err(LifecycleError::NotLoaded));
}
