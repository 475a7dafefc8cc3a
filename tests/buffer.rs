use fungui::buffer::{plan_upload, AttributeBuffer, UploadAction, QUAD_BYTES};
use fungui::geometry::axis_aligned_quad;

fn quad() -> fungui::geometry::TexQuad<f32> {
    axis_aligned_quad((0.0, 0.0, 1.0, 1.0), (0.0, 0.0, 1.0, 1.0), (255, 255, 255, 255), 0.0)
}

#[test]
fn plan_upload_follows_the_reuse_policy() {
    assert_eq!(plan_upload(0, 0), UploadAction::Skip);
    assert_eq!(plan_upload(0, 500), UploadAction::Skip);
    assert_eq!(plan_upload(144, 144), UploadAction::UpdateInPlace { bytes: 144 });
    assert_eq!(plan_upload(144, 288), UploadAction::UpdateInPlace { bytes: 144 });
    assert_eq!(plan_upload(288, 144), UploadAction::Reallocate { bytes: 288 });
}

#[test]
fn steady_quad_count_reallocates_once() {
    let mut b: AttributeBuffer<f32> = AttributeBuffer::new(3, Some(4));
    let mut reallocations = 0;
    let mut in_place = 0;
    for _frame in 0..5 {
        for _ in 0..10 {
            b.append(quad());
        }
        assert_eq!(b.payload_size(), 10 * QUAD_BYTES);
        let (action, quads) = b.flush();
        assert_eq!(quads.len(), 10);
        assert!(b.queue.is_empty());
        match action {
            UploadAction::Reallocate { bytes } => {
                assert_eq!(bytes, 1440);
                reallocations += 1
            }
            UploadAction::UpdateInPlace { bytes } => {
                assert_eq!(bytes, 1440);
                in_place += 1
            }
            UploadAction::Skip => panic!("nothing was skipped"),
        }
    }
    assert_eq!((reallocations, in_place), (1, 4));
    assert_eq!(b.allocated_capacity, 1440);
}

#[test]
fn capacity_never_shrinks() {
    let mut b: AttributeBuffer<f32> = AttributeBuffer::new(1, None);
    for _ in 0..3 {
        b.append(quad());
    }
    assert_eq!(b.flush().0, UploadAction::Reallocate { bytes: 432 });
    b.append(quad());
    assert_eq!(b.flush().0, UploadAction::UpdateInPlace { bytes: 144 });
    assert_eq!(b.allocated_capacity, 432);
    assert_eq!(b.flush().0, UploadAction::Skip);
    for _ in 0..4 {
        b.append(quad());
    }
    assert_eq!(b.flush().0, UploadAction::Reallocate { bytes: 576 });
    assert_eq!(b.allocated_capacity, 576);
}
