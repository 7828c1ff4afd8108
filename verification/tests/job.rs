use remuxer::bus::Delivery;
use remuxer::config::FFMpegConfig;
use remuxer::event::{FFMpegContext, FFMpegEvent, FFMpegProgress};
use remuxer::ffmpeg::FFMpeg;
use remuxer::ffprobe::{FFProbeResult, FFProbeResultFormat, FFProbeResultStream};
use remuxer::finalize::FileOp;
use remuxer::job::{Job, JobAction, JobInput, JobPhase, TranscodeError};

fn probe() -> FFProbeResult {
    FFProbeResult {
        streams: vec![FFProbeResultStream {
            index: 0,
            codec_name: Some("hevc".to_string()),
            codec_type: "video".to_string(),
            channels: None,
            bit_rate: None,
        }],
        format: FFProbeResultFormat {
            filename: "/in/Movie.mkv".to_string(),
            format_name: "matroska,webm".to_string(),
            format_long_name: "Matroska / WebM".to_string(),
            duration: "60.0".to_string(),
        },
    }
}

fn transcoder(keep: bool) -> FFMpeg {
    let mut config = FFMpegConfig::default();
    config.keep_input_file = keep;
    FFMpeg::new(&config)
}

fn line(s: &str) -> JobInput {
    JobInput::Line(s.to_string())
}

fn drain(f: &mut FFMpeg, id: usize) -> Vec<FFMpegEvent> {
    let mut seen = vec![];
    while let Delivery::Event(e) = f.bus.poll(id) {
        seen.push(e);
    }
    seen
}

fn started(f: &mut FFMpeg) -> Job {
    f.transcode(&probe(), "/out/Film.mp4").unwrap()
}

fn to_waiting(f: &mut FFMpeg, job: &mut Job) {
    assert_eq!(f.advance(job, JobInput::Spawned), JobAction::Read);
    assert_eq!(f.advance(job, JobInput::OutputClosed), JobAction::Wait);
}

fn expected_context() -> FFMpegContext {
    FFMpegContext {
        probe: probe(),
        command: "ffmpeg -i /in/Movie.mkv -y -hide_banner -loglevel error -progress - -nostats \
                  -stats_period 5 -movflags faststart -f mp4 -crf 23 -level 3.0 -pix_fmt yuv420p \
                  -maxrate 4000000 -bufsize 8000000 -ac 2 -b:a 128000 -map 0:0 -c:0 h264 \
                  /out/Film.mp4.part"
            .to_string(),
        input_path: "/in/Movie.mkv".to_string(),
        output_path: "/out/Film.mp4".to_string(),
    }
}

#[test]
fn a_new_transcoder_has_an_empty_bus() {
    let mut f = transcoder(false);
    assert_eq!(f.config, FFMpegConfig::default());
    assert_eq!(f.bus.subscriber_count(), 0);
    assert_eq!(f.subscribe(), 0);
    assert_eq!(f.subscribe(), 1);
    assert_eq!(f.bus.poll(0), Delivery::Empty);
}

#[test]
fn starting_a_job_publishes_started() {
    let mut f = transcoder(false);
    let id = f.subscribe();
    let job = started(&mut f);
    assert_eq!(job.phase(), JobPhase::Spawning);
    assert!(!job.is_finished());
    assert_eq!(job.context(), &expected_context());
    assert_eq!(job.tmp_output_path(), "/out/Film.mp4.part");
    assert_eq!(job.invocation().program, "ffmpeg");
    assert_eq!(job.invocation().args.last().unwrap(), "/out/Film.mp4.part");
    assert_eq!(job.invocation().command_line(), expected_context().command);
    assert_eq!(job.sample(), &FFMpegProgress { speed: "0x".to_string(), out_time_us: 0 });
    assert_eq!(drain(&mut f, id), vec![FFMpegEvent::START(expected_context())]);
}

#[test]
fn no_job_without_an_output_file_name() {
    let mut f = transcoder(false);
    let id = f.subscribe();
    match f.transcode(&probe(), "/") {
        Err(e) => {
            assert_eq!(e, TranscodeError::OutputPath);
            assert!(!e.is_execution_failure());
            assert!(!e.is_finalize_failure());
            assert_eq!(e.message(), "the output path has no file name");
        }
        Ok(_) => panic!("a job was started"),
    }
    assert_eq!(f.bus.poll(id), Delivery::Empty);
}

#[test]
fn a_whole_job_that_succeeds() {
    let mut f = transcoder(false);
    let id = f.subscribe();
    let mut job = started(&mut f);
    assert_eq!(f.advance(&mut job, JobInput::Spawned), JobAction::Read);
    assert_eq!(job.phase(), JobPhase::Reading);
    for l in ["frame=1", "out_time_ms=1000000", "speed=1.5x", "garbage", "progress=continue"] {
        assert_eq!(f.advance(&mut job, line(l)), JobAction::Read);
    }
    assert_eq!(job.sample(), &FFMpegProgress { speed: "1.5x".to_string(), out_time_us: 1_000_000 });
    assert_eq!(f.advance(&mut job, JobInput::OutputClosed), JobAction::Wait);
    assert_eq!(job.phase(), JobPhase::Waiting);
    assert_eq!(
        f.advance(&mut job, JobInput::Exited(Some(0))),
        JobAction::Apply(vec![
            FileOp::Rename { from: "/out/Film.mp4.part".to_string(), to: "/out/Film.mp4".to_string() },
            FileOp::Remove { path: "/in/Movie.mkv".to_string() },
        ])
    );
    assert_eq!(job.phase(), JobPhase::Placing);
    assert_eq!(f.advance(&mut job, JobInput::Applied), JobAction::List("/in".to_string()));
    assert_eq!(job.phase(), JobPhase::Listing);
    let listed = vec!["/in/Movie.en.srt".to_string(), "/in/Unrelated.txt".to_string()];
    assert_eq!(
        f.advance(&mut job, JobInput::Listed(listed)),
        JobAction::Apply(vec![FileOp::Rename {
            from: "/in/Movie.en.srt".to_string(),
            to: "/out/Film.en.srt".to_string(),
        }])
    );
    assert_eq!(job.phase(), JobPhase::Relocating);
    assert!(!job.is_finished());
    assert_eq!(f.advance(&mut job, JobInput::Applied), JobAction::Succeed);
    assert_eq!(job.phase(), JobPhase::Succeeded);
    assert!(job.is_finished());
    assert_eq!(
        drain(&mut f, id),
        vec![
            FFMpegEvent::START(expected_context()),
            FFMpegEvent::PROGRESS(
                expected_context(),
                FFMpegProgress { speed: "1.5x".to_string(), out_time_us: 1_000_000 }
            ),
            FFMpegEvent::DONE(expected_context()),
        ]
    );
}

#[test]
fn a_directory_of_other_files_is_left_alone() {
    let mut f = transcoder(false);
    let id = f.subscribe();
    let mut job = started(&mut f);
    to_waiting(&mut f, &mut job);
    assert_eq!(
        f.advance(&mut job, JobInput::Exited(Some(0))),
        JobAction::Apply(vec![
            FileOp::Rename { from: "/out/Film.mp4.part".to_string(), to: "/out/Film.mp4".to_string() },
            FileOp::Remove { path: "/in/Movie.mkv".to_string() },
        ])
    );
    assert_eq!(f.advance(&mut job, JobInput::Applied), JobAction::List("/in".to_string()));
    let listed = vec![
        "/in/Other.mkv".to_string(),
        "/in/movie.srt".to_string(),
        "/in/notes.txt".to_string(),
        "/in/Movi".to_string(),
    ];
    assert_eq!(f.advance(&mut job, JobInput::Listed(listed)), JobAction::Apply(vec![]));
    assert_eq!(f.advance(&mut job, JobInput::Applied), JobAction::Succeed);
    assert_eq!(job.phase(), JobPhase::Succeeded);
    assert_eq!(
        drain(&mut f, id),
        vec![FFMpegEvent::START(expected_context()), FFMpegEvent::DONE(expected_context())]
    );
}

#[test]
fn kept_input_is_not_removed_and_sidecars_are_copied() {
    let mut f = transcoder(true);
    let mut job = started(&mut f);
    to_waiting(&mut f, &mut job);
    assert_eq!(
        f.advance(&mut job, JobInput::Exited(Some(0))),
        JobAction::Apply(vec![FileOp::Rename {
            from: "/out/Film.mp4.part".to_string(),
            to: "/out/Film.mp4".to_string(),
        }])
    );
    f.advance(&mut job, JobInput::Applied);
    assert_eq!(
        f.advance(&mut job, JobInput::Listed(vec!["/in/Movie.srt".to_string()])),
        JobAction::Apply(vec![FileOp::Copy {
            from: "/in/Movie.srt".to_string(),
            to: "/out/Film.srt".to_string(),
        }])
    );
}

#[test]
fn running_twice_with_kept_input_plans_the_same() {
    let run = || {
        let mut f = transcoder(true);
        let mut job = started(&mut f);
        to_waiting(&mut f, &mut job);
        let place = f.advance(&mut job, JobInput::Exited(Some(0)));
        f.advance(&mut job, JobInput::Applied);
        let relocate = f.advance(&mut job, JobInput::Listed(vec!["/in/Movie.srt".to_string()]));
        (job.invocation().args.clone(), place, relocate)
    };
    assert_eq!(run(), run());
}

#[test]
fn spawn_failure_ends_the_job() {
    let mut f = transcoder(false);
    let id = f.subscribe();
    let mut job = started(&mut f);
    let action = f.advance(&mut job, JobInput::SpawnFailed("No such file".to_string()));
    assert_eq!(action, JobAction::Fail(TranscodeError::Spawn("No such file".to_string())));
    assert_eq!(job.phase(), JobPhase::Failed);
    assert_eq!(
        drain(&mut f, id),
        vec![FFMpegEvent::START(expected_context()), FFMpegEvent::ERROR(expected_context())]
    );
}

#[test]
fn nonzero_exit_ends_the_job() {
    for code in [Some(1), Some(-1), Some(255), None] {
        let mut f = transcoder(false);
        let id = f.subscribe();
        let mut job = started(&mut f);
        to_waiting(&mut f, &mut job);
        match f.advance(&mut job, JobInput::Exited(code)) {
            JobAction::Fail(e) => {
                assert_eq!(e, TranscodeError::Exit(code));
                assert!(e.is_execution_failure());
                assert!(!e.is_finalize_failure());
                assert_eq!(e.message(), format!("ffmpeg exited with status: {:?}", code));
            }
            other => panic!("unexpected {:?}", other),
        }
        assert_eq!(job.phase(), JobPhase::Failed);
        let seen = drain(&mut f, id);
        assert_eq!(seen.len(), 2);
        assert_eq!(seen[1], FFMpegEvent::ERROR(expected_context()));
    }
}

#[test]
fn failed_wait_ends_the_job() {
    let mut f = transcoder(false);
    let mut job = started(&mut f);
    to_waiting(&mut f, &mut job);
    match f.advance(&mut job, JobInput::WaitFailed("interrupted".to_string())) {
        JobAction::Fail(e) => {
            assert_eq!(e, TranscodeError::Wait("interrupted".to_string()));
            assert!(e.is_execution_failure());
            assert_eq!(e.message(), "interrupted");
        }
        other => panic!("unexpected {:?}", other),
    }
}

#[test]
fn finalize_failure_is_told_apart() {
    for stage in 0..3 {
        let mut f = transcoder(false);
        let id = f.subscribe();
        let mut job = started(&mut f);
        to_waiting(&mut f, &mut job);
        f.advance(&mut job, JobInput::Exited(Some(0)));
        if stage >= 1 {
            f.advance(&mut job, JobInput::Applied);
        }
        if stage >= 2 {
            f.advance(&mut job, JobInput::Listed(vec![]));
        }
        match f.advance(&mut job, JobInput::IoFailed("disk full".to_string())) {
            JobAction::Fail(e) => {
                assert_eq!(e, TranscodeError::Finalize("disk full".to_string()));
                assert!(e.is_finalize_failure());
                assert!(!e.is_execution_failure());
            }
            other => panic!("unexpected {:?}", other),
        }
        let seen = drain(&mut f, id);
        assert_eq!(seen.len(), 2);
        assert_eq!(seen[1], FFMpegEvent::ERROR(expected_context()));
    }
}

#[test]
fn without_a_layout_the_job_succeeds_after_placement() {
    let mut f = transcoder(true);
    let id = f.subscribe();
    let mut p = probe();
    p.format.filename = "/".to_string();
    let mut job = f.transcode(&p, "/out/Film.mp4").unwrap();
    to_waiting(&mut f, &mut job);
    f.advance(&mut job, JobInput::Exited(Some(0)));
    assert_eq!(f.advance(&mut job, JobInput::Applied), JobAction::Succeed);
    assert_eq!(drain(&mut f, id).len(), 2);
}

#[test]
fn reports_that_do_not_fit_are_ignored() {
    let mut f = transcoder(false);
    let id = f.subscribe();
    let mut job = started(&mut f);
    for input in [
        line("progress=end"),
        JobInput::OutputClosed,
        JobInput::Exited(Some(0)),
        JobInput::Exited(Some(1)),
        JobInput::WaitFailed("x".to_string()),
        JobInput::Applied,
        JobInput::Listed(vec![]),
        JobInput::IoFailed("x".to_string()),
    ] {
        assert_eq!(f.advance(&mut job, input), JobAction::Ignore);
        assert_eq!(job.phase(), JobPhase::Spawning);
    }
    f.advance(&mut job, JobInput::Spawned);
    for input in [JobInput::Spawned, JobInput::Applied, JobInput::Exited(Some(0))] {
        assert_eq!(f.advance(&mut job, input), JobAction::Ignore);
        assert_eq!(job.phase(), JobPhase::Reading);
    }
    assert_eq!(drain(&mut f, id).len(), 1);
}

#[test]
fn nothing_moves_a_job_that_is_over() {
    let mut f = transcoder(false);
    let id = f.subscribe();
    let mut job = started(&mut f);
    f.advance(&mut job, JobInput::SpawnFailed("x".to_string()));
    for input in [
        JobInput::Spawned,
        JobInput::SpawnFailed("y".to_string()),
        line("progress=end"),
        JobInput::OutputClosed,
        JobInput::Exited(Some(0)),
        JobInput::Applied,
        JobInput::IoFailed("z".to_string()),
    ] {
        assert_eq!(f.advance(&mut job, input), JobAction::Ignore);
        assert_eq!(job.phase(), JobPhase::Failed);
    }
    let seen = drain(&mut f, id);
    assert_eq!(seen.iter().filter(|e| matches!(e, FFMpegEvent::START(_))).count(), 1);
    assert_eq!(seen.iter().filter(|e| e.is_terminal()).count(), 1);
}

#[test]
fn samples_of_a_job_never_step_back() {
    let mut f = transcoder(false);
    let id = f.subscribe();
    let mut job = started(&mut f);
    f.advance(&mut job, JobInput::Spawned);
    let mut seen = vec![];
    for t in ["100", "50", "N/A", "100", "250", "-3", "249"] {
        f.advance(&mut job, line(&format!("out_time_ms={}", t)));
        f.advance(&mut job, line("progress=continue"));
        for e in drain(&mut f, id) {
            if let FFMpegEvent::PROGRESS(_, s) = e {
                seen.push(s.out_time_us);
            }
        }
    }
    assert_eq!(seen, vec![100, 100, 100, 100, 250, 250, 250]);
}

#[test]
fn a_slow_observer_still_sees_start_and_end() {
    let mut f = transcoder(false);
    let slow = f.subscribe();
    let mut job = started(&mut f);
    f.advance(&mut job, JobInput::Spawned);
    for t in 1..=1000u64 {
        f.advance(&mut job, line(&format!("out_time_ms={}", t)));
        f.advance(&mut job, line("progress=continue"));
    }
    f.advance(&mut job, JobInput::OutputClosed);
    f.advance(&mut job, JobInput::Exited(Some(3)));
    let seen = drain(&mut f, slow);
    assert_eq!(seen.len(), 3);
    assert_eq!(seen[0], FFMpegEvent::START(expected_context()));
    assert_eq!(
        seen[1],
        FFMpegEvent::PROGRESS(
            expected_context(),
            FFMpegProgress { speed: "0x".to_string(), out_time_us: 1000 }
        )
    );
    assert_eq!(seen[2], FFMpegEvent::ERROR(expected_context()));
}

#[test]
fn disposing_closes_the_bus() {
    let mut f = transcoder(false);
    let id = f.subscribe();
    let _job = started(&mut f);
    f.dispose();
    assert_eq!(f.bus.poll(id), Delivery::Event(FFMpegEvent::START(expected_context())));
    assert_eq!(f.bus.poll(id), Delivery::Closed);
}
