use snapcap::error::CaptureError;
use snapcap::readback::{
    read_mapped, readback_start, readback_step, Frame, ReadbackAction, ReadbackEvent, ReadbackPhase,
};
use snapcap::texture::{
    StagingPlan, TextureDesc, BIND_SHADER_RESOURCE, CPU_ACCESS_READ, USAGE_DEFAULT, USAGE_STAGING,
};

fn desc(width: u32, height: u32, usage: i32, cpu: u32) -> TextureDesc {
    TextureDesc {
        width,
        height,
        mip_levels: 1,
        array_size: 1,
        format: 87,
        sample_count: 1,
        sample_quality: 0,
        usage,
        bind_flags: BIND_SHADER_RESOURCE,
        cpu_access_flags: cpu,
        misc_flags: 0x800,
    }
}

fn pattern(len: usize) -> Vec<u8> {
    (0..len).map(|i| (i % 251) as u8).collect()
}

#[test]
fn staging_readable_texture_is_read_directly() {
    let d = desc(4, 2, USAGE_STAGING, CPU_ACCESS_READ);
    assert!(d.is_cpu_readable_staging());
    assert_eq!(d.staging_plan(), StagingPlan::Direct);
}

#[test]
fn staging_texture_without_read_access_is_copied() {
    let d = desc(4, 2, USAGE_STAGING, 0x10000);
    assert!(!d.is_cpu_readable_staging());
    assert!(matches!(d.staging_plan(), StagingPlan::Copy(_)));
}

#[test]
fn default_texture_gets_a_staging_copy() {
    let d = desc(1920, 1080, USAGE_DEFAULT, 0);
    match d.staging_plan() {
        StagingPlan::Copy(c) => {
            assert_eq!(c.usage, USAGE_STAGING);
            assert_eq!(c.bind_flags, 0);
            assert_eq!(c.cpu_access_flags, CPU_ACCESS_READ);
            assert_eq!(c.misc_flags, 0);
            assert_eq!((c.width, c.height, c.format), (1920, 1080, 87));
            assert!(c.is_cpu_readable_staging());
        }
        StagingPlan::Direct => panic!("a default texture cannot be mapped"),
    }
}

#[test]
fn shader_copy_desc_clears_cpu_access() {
    let d = desc(8, 8, USAGE_STAGING, CPU_ACCESS_READ);
    let c = d.copy_desc(false);
    assert_eq!(c.usage, USAGE_DEFAULT);
    assert_eq!(c.bind_flags, BIND_SHADER_RESOURCE);
    assert_eq!(c.cpu_access_flags, 0);
    assert_eq!(c.misc_flags, 0);
}

#[test]
fn unpadded_full_hd_readback() {
    let d = desc(1920, 1080, USAGE_STAGING, CPU_ACCESS_READ);
    let mapped = pattern(1080 * 7680);
    let f = read_mapped(&d, &mapped, 7680).unwrap();
    assert_eq!(f.height, 1080);
    assert_eq!(f.width, 1920);
    assert_eq!(f.bytes.len(), 8_294_400);
    assert_eq!(f.bytes, mapped);
    let tight = f.strip_row_padding(4).unwrap();
    assert_eq!(tight, mapped);
}

#[test]
fn padded_full_hd_readback_strips_to_tight_rows() {
    let d = desc(1920, 1080, USAGE_STAGING, CPU_ACCESS_READ);
    let mapped = pattern(1080 * 7936 + 100);
    let f = read_mapped(&d, &mapped, 7936).unwrap();
    assert_eq!((f.height, f.width, f.row_pitch), (1080, 1920, 7936));
    assert_eq!(f.bytes.len(), 1080 * 7936);
    let tight = f.strip_row_padding(4).unwrap();
    assert_eq!(tight.len(), 8_294_400);
    for row in [0usize, 1, 539, 1079] {
        assert_eq!(&tight[row * 7680..(row + 1) * 7680], &mapped[row * 7936..row * 7936 + 7680]);
    }
}

#[test]
fn readback_copies_only_the_mapped_rows() {
    let d = desc(2, 3, USAGE_STAGING, CPU_ACCESS_READ);
    let mapped = pattern(40);
    let f = read_mapped(&d, &mapped, 12).unwrap();
    assert_eq!(f.bytes, mapped[..36].to_vec());
}

#[test]
fn short_mapped_region_is_a_map_error() {
    let d = desc(2, 3, USAGE_STAGING, CPU_ACCESS_READ);
    let mapped = pattern(35);
    assert_eq!(read_mapped(&d, &mapped, 12).err(), Some(CaptureError::TextureMap));
}

#[test]
fn empty_texture_reads_back_empty() {
    let d = desc(0, 0, USAGE_STAGING, CPU_ACCESS_READ);
    let f = read_mapped(&d, &[], 0).unwrap();
    assert!(f.bytes.is_empty());
    assert_eq!(f.strip_row_padding(4), Some(vec![]));
}

#[test]
fn direct_and_copied_paths_give_the_same_frame() {
    let source = desc(16, 4, USAGE_DEFAULT, 0);
    let staging = match source.staging_plan() {
        StagingPlan::Copy(c) => c,
        StagingPlan::Direct => panic!("expected a copy"),
    };
    let mapped = pattern(4 * 64);
    let a = read_mapped(&source, &mapped, 64).unwrap();
    let b = read_mapped(&staging, &mapped, 64).unwrap();
    assert_eq!((a.height, a.width, a.row_pitch), (b.height, b.width, b.row_pitch));
    assert_eq!(a.bytes, b.bytes);
    assert_eq!(a.bytes.len(), 4 * 64);
}

#[test]
fn strip_refuses_rows_wider_than_pitch() {
    let f = Frame { height: 2, width: 5, row_pitch: 16, bytes: pattern(32) };
    assert_eq!(f.strip_row_padding(4), None);
}

#[test]
fn strip_refuses_short_buffer() {
    let f = Frame { height: 2, width: 2, row_pitch: 16, bytes: pattern(31) };
    assert_eq!(f.strip_row_padding(4), None);
}

#[test]
fn strip_small_padded_rows() {
    let f = Frame { height: 2, width: 1, row_pitch: 6, bytes: vec![1, 2, 3, 4, 9, 9, 5, 6, 7, 8, 9, 9] };
    assert_eq!(f.strip_row_padding(4), Some(vec![1, 2, 3, 4, 5, 6, 7, 8]));
}

#[test]
fn unmap_runs_after_a_failed_copy() {
    let p = readback_start();
    assert_eq!(p, ReadbackPhase::Staging);
    let (p, a) = readback_step(p, ReadbackEvent::StagingReady);
    assert_eq!(a, ReadbackAction::MapStaging);
    let (p, a) = readback_step(p, ReadbackEvent::MapSucceeded);
    assert_eq!(a, ReadbackAction::CopyBytes);
    let (p, a) = readback_step(p, ReadbackEvent::CopyFailed);
    assert_eq!(a, ReadbackAction::Unmap);
    let (p, a) = readback_step(p, ReadbackEvent::UnmapDone);
    assert_eq!(a, ReadbackAction::Fail(CaptureError::TextureMap));
    assert_eq!(p, ReadbackPhase::Failed(CaptureError::TextureMap));
}

#[test]
fn readback_happy_path() {
    let p = readback_start();
    let (p, _) = readback_step(p, ReadbackEvent::StagingReady);
    let (p, _) = readback_step(p, ReadbackEvent::MapSucceeded);
    let (p, a) = readback_step(p, ReadbackEvent::BytesCopied);
    assert_eq!(a, ReadbackAction::Unmap);
    let (p, a) = readback_step(p, ReadbackEvent::UnmapDone);
    assert_eq!(a, ReadbackAction::ReturnFrame);
    assert_eq!(p, ReadbackPhase::Finished);
}

#[test]
fn readback_failures_before_the_map_skip_unmap() {
    let (p, a) = readback_step(ReadbackPhase::Staging, ReadbackEvent::StagingFailed);
    assert_eq!(a, ReadbackAction::Fail(CaptureError::TextureCopy));
    assert_eq!(p, ReadbackPhase::Failed(CaptureError::TextureCopy));
    let (_, a) = readback_step(ReadbackPhase::Mapping, ReadbackEvent::MapFailed);
    assert_eq!(a, ReadbackAction::Fail(CaptureError::TextureMap));
}
