use tela::presentation::{
    backoff_after_render, MAX_RENDER_RETRIES, file_device_loss, report_concerns_live_session, respond_to_outcome, DeviceLossReport,
    RenderOutcome, SurfaceRepair, SurfaceRetry,
};

#[test]
fn each_outcome_has_its_response() {
    let presented = respond_to_outcome(RenderOutcome::Presented { suboptimal: false });
    assert!(presented.frame_presented && !presented.redraw);
    assert_eq!(presented.retry, SurfaceRetry::Cancel);
    let suboptimal = respond_to_outcome(RenderOutcome::Presented { suboptimal: true });
    assert_eq!(suboptimal.repair, SurfaceRepair::Reconfigure);
    assert!(suboptimal.redraw);
    let outdated = respond_to_outcome(RenderOutcome::Outdated);
    assert!(outdated.invalidate_presented && outdated.redraw);
    assert_eq!(outdated.repair, SurfaceRepair::Reconfigure);
    assert_eq!(respond_to_outcome(RenderOutcome::Lost).repair, SurfaceRepair::Recreate);
    assert_eq!(respond_to_outcome(RenderOutcome::Timeout).retry, SurfaceRetry::Schedule);
    let occluded = respond_to_outcome(RenderOutcome::Occluded);
    assert!(!occluded.frame_presented && !occluded.redraw && !occluded.fails);
    assert!(respond_to_outcome(RenderOutcome::Validation).fails);
}

#[test]
fn newer_device_loss_reports_win() {
    let mut slot = None;
    assert!(file_device_loss(&mut slot, DeviceLossReport { generation: 3, detail: "a".to_owned() }));
    assert!(!file_device_loss(&mut slot, DeviceLossReport { generation: 2, detail: "late".to_owned() }));
    assert_eq!(slot.as_ref().map(|report| report.generation), Some(3));
    assert!(file_device_loss(&mut slot, DeviceLossReport { generation: 3, detail: "again".to_owned() }));
    assert_eq!(slot.as_ref().map(|report| report.detail.as_str()), Some("again"));
}

#[test]
fn only_reports_of_the_live_session_are_acted_on() {
    let report = DeviceLossReport { generation: 4, detail: String::new() };
    assert!(report_concerns_live_session(&report, 4, true));
    assert!(!report_concerns_live_session(&report, 5, true));
    assert!(!report_concerns_live_session(&report, 4, false));
}

#[test]
fn repeated_failures_back_off_until_a_present() {
    let mut retries = 0;
    let mut redraws = 0;
    for _ in 0..8 {
        let step = backoff_after_render(retries, Some(RenderOutcome::Outdated));
        assert_eq!(step.repair, SurfaceRepair::Reconfigure);
        retries = step.retries;
        if step.redraw {
            redraws += 1;
        }
    }
    assert_eq!(retries, 8);
    assert_eq!(redraws, MAX_RENDER_RETRIES - 1);
    let presented = backoff_after_render(retries, Some(RenderOutcome::Presented { suboptimal: false }));
    assert!(presented.presented && !presented.redraw);
    assert_eq!(presented.retries, 0);
    let suboptimal = backoff_after_render(0, Some(RenderOutcome::Presented { suboptimal: true }));
    assert_eq!((suboptimal.retries, suboptimal.redraw), (1, true));
    assert_eq!(backoff_after_render(3, Some(RenderOutcome::Occluded)).retries, 3);
    assert_eq!(backoff_after_render(3, None).retries, 4);
    assert!(!backoff_after_render(0, Some(RenderOutcome::Validation)).redraw);
    assert_eq!(backoff_after_render(u32::MAX, Some(RenderOutcome::Lost)).retries, u32::MAX);
}
