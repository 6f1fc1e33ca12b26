use mac_rdp::counter::IntervalCounter;
use mac_rdp::screen::display::Job;
use mac_rdp::screen::sound::Job as SoundJob;
use mac_rdp::screen::ContextState;
use mac_rdp::screen::Coord;
use mac_rdp::screen::DisplayAction;
use mac_rdp::screen::OutputState;
use mac_rdp::screen::ScreenAction;
use mac_rdp::screen::ScreenCaptureContext;
use mac_rdp::screen::ScreenJob;
use mac_rdp::screen::ScreenOutputIndex;
use mac_rdp::screen::ScreenSize;
use mac_rdp::screen::ServerPoint;
use mac_rdp::screen::SoundAction;
use mac_rdp::screen::JOB_QUEUE_CAPACITY;

fn context(width: u32, height: u32) -> ScreenCaptureContext {
    ScreenCaptureContext::new(width, height, IntervalCounter::new(), IntervalCounter::new())
}

fn display_of(context: &ScreenCaptureContext) -> OutputState {
    context.state().display
}

fn audio_of(context: &ScreenCaptureContext) -> OutputState {
    context.state().audio
}

/// A context whose display output is attached under `index`.
fn capturing(index: usize) -> ScreenCaptureContext {
    let mut context = context(2560, 1440);
    assert_eq!(context.handle_display_job(Job::CaptureStart), DisplayAction::Attach);
    let (_delegate, pending) = context.frame_relay();
    let updates = context.display_attached(Some(ScreenOutputIndex::new(index)), pending);
    assert!(updates.is_some());
    context
}

#[test]
fn the_job_queue_is_small() {
    assert_eq!(JOB_QUEUE_CAPACITY, 10);
}

#[test]
fn an_output_index_gives_back_its_raw_value() {
    assert_eq!(ScreenOutputIndex::new(0).to_raw(), 0);
    assert_eq!(ScreenOutputIndex::new(0xDEAD_BEEF).to_raw(), 0xDEAD_BEEF);
    assert_eq!(ScreenOutputIndex::new(usize::MAX).to_raw(), usize::MAX);
    assert_eq!(ScreenOutputIndex::new(7), ScreenOutputIndex::new(7));
    assert_ne!(ScreenOutputIndex::new(7), ScreenOutputIndex::new(8));
}

#[test]
fn scale_doubles_when_the_server_is_twice_the_client() {
    let size = ScreenSize { client: (1280, 720), server: (2560, 1440) };
    let point = size.scale(640, 360);
    assert_eq!(
        point,
        ServerPoint { x: Coord { num: 1_638_400, den: 1280 }, y: Coord { num: 518_400, den: 720 } }
    );
    assert_eq!(point.x.num / point.x.den as u32, 1280);
    assert_eq!(point.x.num % point.x.den as u32, 0);
    assert_eq!(point.y.num / point.y.den as u32, 720);
    assert_eq!(point.y.num % point.y.den as u32, 0);
}

#[test]
fn scale_is_the_identity_on_equal_sizes() {
    let size = ScreenSize { client: (1920, 1080), server: (1920, 1080) };
    for (x, y) in [(0u16, 0u16), (1, 1), (960, 540), (1919, 1079), (17, 1000)] {
        let point = size.scale(x, y);
        assert_eq!(point.x.den, 1920);
        assert_eq!(point.y.den, 1080);
        assert_eq!(point.x.num, x as u32 * 1920);
        assert_eq!(point.y.num, y as u32 * 1080);
        assert_eq!(point.x.num as f64 / point.x.den as f64, x as f64);
        assert_eq!(point.y.num as f64 / point.y.den as f64, y as f64);
    }
}

#[test]
fn scale_keeps_the_order_of_points() {
    let size = ScreenSize { client: (1366, 768), server: (3024, 1964) };
    let mut last = size.scale(0, 0);
    for step in 1..=200u16 {
        let next = size.scale(step * 6, step * 3);
        assert!(last.x.num as u64 * next.x.den as u64 <= next.x.num as u64 * last.x.den as u64);
        assert!(last.y.num as u64 * next.y.den as u64 <= next.y.num as u64 * last.y.den as u64);
        assert!(last.x.num as f64 / last.x.den as f64 <= next.x.num as f64 / next.x.den as f64);
        assert!(last.y.num as f64 / last.y.den as f64 <= next.y.num as f64 / next.y.den as f64);
        last = next;
    }
}

#[test]
fn scale_does_not_overflow_at_the_largest_sizes() {
    let size = ScreenSize { client: (65535, 1), server: (65535, 65535) };
    let point = size.scale(65535, 65535);
    assert_eq!(point.x, Coord { num: 4_294_836_225, den: 65535 });
    assert_eq!(point.y, Coord { num: 4_294_836_225, den: 1 });
}

#[test]
fn scale_under_an_empty_client_screen_has_a_zero_denominator() {
    let size = ScreenSize { client: (0, 0), server: (800, 600) };
    assert_eq!(
        size.scale(3, 4),
        ServerPoint { x: Coord { num: 2400, den: 0 }, y: Coord { num: 2400, den: 0 } }
    );
}

#[test]
fn whole_and_origin() {
    assert_eq!(Coord::whole(7), Coord { num: 7, den: 1 });
    assert_eq!(
        ServerPoint::origin(),
        ServerPoint { x: Coord { num: 0, den: 1 }, y: Coord { num: 0, den: 1 } }
    );
}

#[test]
fn the_size_of_a_display_is_both_resolutions() {
    assert_eq!(
        ScreenSize::of_display(2560, 1440),
        ScreenSize { client: (2560, 1440), server: (2560, 1440) }
    );
    assert_eq!(
        ScreenSize::of_display(65536 + 5, 65535),
        ScreenSize { client: (5, 65535), server: (5, 65535) }
    );
    assert_eq!(ScreenSize::of_display(0, u32::MAX), ScreenSize { client: (0, 65535), server: (0, 65535) });
}

#[test]
fn set_client_tells_whether_the_resolution_changed() {
    let mut size = ScreenSize { client: (800, 600), server: (2560, 1440) };
    assert!(size.set_client(1280, 720));
    assert_eq!(size, ScreenSize { client: (1280, 720), server: (2560, 1440) });
    assert!(!size.set_client(1280, 720));
    assert_eq!(size, ScreenSize { client: (1280, 720), server: (2560, 1440) });
    assert!(size.set_client(1280, 721));
    assert!(size.set_client(1281, 721));
    assert_eq!(size, ScreenSize { client: (1281, 721), server: (2560, 1440) });
}

#[test]
fn a_new_context_is_idle_at_the_display_size() {
    let context = context(2560, 1440);
    let ContextState { display_size, display, audio } = context.state();
    assert_eq!(display_size, ScreenSize { client: (2560, 1440), server: (2560, 1440) });
    assert_eq!(display, OutputState::Idle);
    assert_eq!(audio, OutputState::Idle);
}

#[test]
fn get_size_answers_with_the_server_size() {
    let mut context = context(2560, 1440);
    assert_eq!(context.handle_display_job(Job::GetSize), DisplayAction::ReplySize(2560, 1440));
    context.handle_display_job(Job::SetSize(1280, 720));
    assert_eq!(context.handle_display_job(Job::GetSize), DisplayAction::ReplySize(2560, 1440));
    assert_eq!(display_of(&context), OutputState::Idle);
}

#[test]
fn set_size_notifies_only_when_the_size_differs() {
    let mut context = context(2560, 1440);
    assert_eq!(context.handle_display_job(Job::SetSize(2560, 1440)), DisplayAction::Nothing);
    assert_eq!(
        context.handle_display_job(Job::SetSize(1280, 720)),
        DisplayAction::Notify(ScreenSize { client: (1280, 720), server: (2560, 1440) })
    );
    assert_eq!(context.handle_display_job(Job::SetSize(1280, 720)), DisplayAction::Nothing);
    assert_eq!(context.handle_display_job(Job::SetSize(1280, 720)), DisplayAction::Nothing);
    assert_eq!(
        context.state().display_size,
        ScreenSize { client: (1280, 720), server: (2560, 1440) }
    );
    assert_eq!(
        context.handle_display_job(Job::SetSize(2560, 1440)),
        DisplayAction::Notify(ScreenSize { client: (2560, 1440), server: (2560, 1440) })
    );
}

#[test]
fn two_capture_starts_attach_one_output() {
    let mut context = context(2560, 1440);
    assert_eq!(context.handle_display_job(Job::CaptureStart), DisplayAction::Attach);
    assert_eq!(display_of(&context), OutputState::Attaching);
    assert_eq!(context.handle_display_job(Job::CaptureStart), DisplayAction::Refuse);
    assert_eq!(display_of(&context), OutputState::Attaching);
    let (_delegate, pending) = context.frame_relay();
    let index = ScreenOutputIndex::new(0x1000);
    let updates = context.display_attached(Some(index), pending).unwrap();
    assert_eq!(updates.index(), index);
    assert_eq!(display_of(&context), OutputState::Attached(index));
    assert_eq!(context.handle_display_job(Job::CaptureStart), DisplayAction::Refuse);
    assert_eq!(context.handle_display_job(Job::CaptureStart), DisplayAction::Refuse);
    assert_eq!(display_of(&context), OutputState::Attached(index));
}

#[test]
fn a_failed_attach_leaves_the_context_idle() {
    let mut context = context(2560, 1440);
    let before = context.state();
    assert_eq!(context.handle_display_job(Job::CaptureStart), DisplayAction::Attach);
    let (_delegate, pending) = context.frame_relay();
    assert!(context.display_attached(None, pending).is_none());
    let after = context.state();
    assert_eq!(after.display, before.display);
    assert_eq!(after.audio, before.audio);
    assert_eq!(after.display_size, before.display_size);
    // The next request is granted again.
    assert_eq!(context.handle_display_job(Job::CaptureStart), DisplayAction::Attach);
}

#[test]
fn an_answer_that_nobody_waits_for_changes_nothing() {
    let mut context = context(800, 600);
    let (_delegate, pending) = context.frame_relay();
    assert!(context.display_attached(Some(ScreenOutputIndex::new(1)), pending).is_none());
    assert_eq!(display_of(&context), OutputState::Idle);
    let mut context = capturing(5);
    let (_delegate, pending) = context.frame_relay();
    assert!(context.display_attached(Some(ScreenOutputIndex::new(6)), pending).is_none());
    assert_eq!(display_of(&context), OutputState::Attached(ScreenOutputIndex::new(5)));
    context.audio_attached(Some(ScreenOutputIndex::new(9)));
    assert_eq!(audio_of(&context), OutputState::Idle);
}

#[test]
fn capture_stop_detaches_the_output_once() {
    let index = ScreenOutputIndex::new(42);
    let mut context = capturing(42);
    assert_eq!(context.handle_display_job(Job::CaptureStop(index)), DisplayAction::Detach(index));
    assert_eq!(display_of(&context), OutputState::Idle);
    assert_eq!(context.handle_display_job(Job::CaptureStop(index)), DisplayAction::Nothing);
    assert_eq!(context.handle_display_job(Job::CaptureStop(index)), DisplayAction::Nothing);
    assert_eq!(display_of(&context), OutputState::Idle);
    // After the stop a new capture can start.
    assert_eq!(context.handle_display_job(Job::CaptureStart), DisplayAction::Attach);
}

#[test]
fn capture_stop_of_another_output_is_ignored() {
    let mut context = capturing(42);
    let other = ScreenOutputIndex::new(43);
    assert_eq!(context.handle_display_job(Job::CaptureStop(other)), DisplayAction::Nothing);
    assert_eq!(display_of(&context), OutputState::Attached(ScreenOutputIndex::new(42)));
    let mut idle = ScreenCaptureContext::new(1, 1, IntervalCounter::new(), IntervalCounter::new());
    assert_eq!(idle.handle_display_job(Job::CaptureStop(other)), DisplayAction::Nothing);
    assert_eq!(idle.handle_display_job(Job::CaptureStart), DisplayAction::Attach);
    assert_eq!(idle.handle_display_job(Job::CaptureStop(other)), DisplayAction::Nothing);
    assert_eq!(display_of(&idle), OutputState::Attaching);
}

#[test]
fn audio_follows_the_same_discipline() {
    let mut context = context(2560, 1440);
    assert_eq!(context.handle_sound_job(SoundJob::Stop), SoundAction::Nothing);
    assert_eq!(context.handle_sound_job(SoundJob::Start), SoundAction::Attach);
    assert_eq!(audio_of(&context), OutputState::Attaching);
    assert_eq!(context.handle_sound_job(SoundJob::Start), SoundAction::Nothing);
    assert_eq!(context.handle_sound_job(SoundJob::Stop), SoundAction::Nothing);
    let index = ScreenOutputIndex::new(77);
    context.audio_attached(Some(index));
    assert_eq!(audio_of(&context), OutputState::Attached(index));
    assert_eq!(context.handle_sound_job(SoundJob::Start), SoundAction::Nothing);
    assert_eq!(context.handle_sound_job(SoundJob::Stop), SoundAction::Detach(index));
    assert_eq!(audio_of(&context), OutputState::Idle);
    assert_eq!(context.handle_sound_job(SoundJob::Stop), SoundAction::Nothing);
    assert_eq!(context.handle_sound_job(SoundJob::Start), SoundAction::Attach);
    context.audio_attached(None);
    assert_eq!(audio_of(&context), OutputState::Idle);
}

#[test]
fn display_and_audio_do_not_touch_each_other() {
    let mut context = capturing(1);
    assert_eq!(context.handle_sound_job(SoundJob::Start), SoundAction::Attach);
    context.audio_attached(Some(ScreenOutputIndex::new(2)));
    assert_eq!(display_of(&context), OutputState::Attached(ScreenOutputIndex::new(1)));
    assert_eq!(
        context.handle_display_job(Job::CaptureStop(ScreenOutputIndex::new(2))),
        DisplayAction::Nothing
    );
    assert_eq!(
        context.handle_display_job(Job::CaptureStop(ScreenOutputIndex::new(1))),
        DisplayAction::Detach(ScreenOutputIndex::new(1))
    );
    assert_eq!(audio_of(&context), OutputState::Attached(ScreenOutputIndex::new(2)));
    context.handle_display_job(Job::SetSize(3, 4));
    assert_eq!(audio_of(&context), OutputState::Attached(ScreenOutputIndex::new(2)));
    assert_eq!(context.handle_sound_job(SoundJob::Stop), SoundAction::Detach(ScreenOutputIndex::new(2)));
    assert_eq!(context.state().display_size.client, (3, 4));
}

#[test]
fn handle_job_takes_jobs_of_either_kind() {
    let mut context = context(1024, 768);
    assert_eq!(
        context.handle_job(ScreenJob::Display(Job::GetSize)),
        ScreenAction::Display(DisplayAction::ReplySize(1024, 768))
    );
    assert_eq!(
        context.handle_job(ScreenJob::Display(Job::CaptureStart)),
        ScreenAction::Display(DisplayAction::Attach)
    );
    assert_eq!(
        context.handle_job(ScreenJob::Sound(SoundJob::Start)),
        ScreenAction::Sound(SoundAction::Attach)
    );
    assert_eq!(
        context.handle_job(ScreenJob::Display(Job::CaptureStart)),
        ScreenAction::Display(DisplayAction::Refuse)
    );
    assert_eq!(
        context.handle_job(ScreenJob::Sound(SoundJob::Stop)),
        ScreenAction::Sound(SoundAction::Nothing)
    );
}

#[test]
fn jobs_that_wait_for_an_answer_must_arrive() {
    assert!(ScreenJob::Display(Job::GetSize).must_arrive());
    assert!(ScreenJob::Display(Job::CaptureStart).must_arrive());
    assert!(ScreenJob::Display(Job::CaptureStop(ScreenOutputIndex::new(1))).must_arrive());
    assert!(!ScreenJob::Display(Job::SetSize(1, 1)).must_arrive());
    assert!(!ScreenJob::Sound(SoundJob::Start).must_arrive());
    assert!(!ScreenJob::Sound(SoundJob::Stop).must_arrive());
}
