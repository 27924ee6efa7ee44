use procmon::sampler::{cpu_percent, Action, Event, Phase, Sampler, SAMPLING_INTERVAL_MS};
use procmon::status::Sample;

fn report_of(action: Action) -> String {
    match action {
        Action::Report(bytes) => String::from_utf8(bytes).unwrap(),
        other => panic!("no report: {:?}", other),
    }
}

fn tick(sampler: &mut Sampler, cpu_before: u64, memory: u64, cpu_after: u64) -> Action {
    assert_eq!(sampler.step(Event::CpuBefore(cpu_before)), Action::Sleep);
    sampler.step(Event::Sampled { memory, cpu_after })
}

#[test]
fn interval_is_one_second() {
    assert_eq!(SAMPLING_INTERVAL_MS, 1000);
}

#[test]
fn cpu_percent_of_consumed_time() {
    assert_eq!(cpu_percent(1000, 1200), 200);
    assert_eq!(cpu_percent(0, 0), 0);
    assert_eq!(cpu_percent(77, 77), 0);
    assert_eq!(cpu_percent(0, 1000), 1000);
    assert_eq!(cpu_percent(0, u64::MAX), u64::MAX);
    assert_eq!(cpu_percent(5, 4006), 4001);
}

#[test]
fn cpu_percent_clamps_negative_delta() {
    assert_eq!(cpu_percent(1200, 1000), 0);
    assert_eq!(cpu_percent(1, 0), 0);
    assert_eq!(cpu_percent(u64::MAX, 0), 0);
}

#[test]
fn new_sampler_stands_between_ticks() {
    let sampler = Sampler::new();
    assert_eq!(sampler.phase(), Phase::Idle);
    assert_eq!(sampler.status().len(), 0);
}

#[test]
fn memory_is_read_at_end_of_interval() {
    let mut sampler = Sampler::new();
    assert_eq!(sampler.step(Event::CpuBefore(1000)), Action::Sleep);
    assert_eq!(sampler.phase(), Phase::Sleeping { cpu_before: 1000 });
    let action = sampler.step(Event::Sampled { memory: 150, cpu_after: 1200 });
    assert_eq!(action, Action::Recorded(Sample { memory: 150, cpu: 200 }));
    assert_eq!(sampler.phase(), Phase::Idle);
    assert_eq!(sampler.status().cpu_usage()[0], 200);
    assert_eq!(sampler.status().memory_usage()[0], 150);
    assert_eq!(sampler.status().memory_max(), 150);
    assert_eq!(sampler.status().cpu_max(), 200);
    assert_eq!(sampler.status().len(), 1);
}

#[test]
fn process_gone_on_first_read_gives_empty_report() {
    let mut sampler = Sampler::new();
    let report = report_of(sampler.step(Event::ProcessGone));
    assert_eq!(report, "Memory Max: 0\nCpu Max: 0\n\n\n");
    assert_eq!(sampler.phase(), Phase::Done);
    assert_eq!(sampler.status().len(), 0);
    assert_eq!(sampler.status().memory_max(), 0);
    assert_eq!(sampler.status().cpu_max(), 0);
}

#[test]
fn partial_third_tick_is_discarded() {
    let mut sampler = Sampler::new();
    tick(&mut sampler, 0, 500, 100);
    tick(&mut sampler, 100, 400, 350);
    assert_eq!(sampler.step(Event::CpuBefore(350)), Action::Sleep);
    let report = report_of(sampler.step(Event::ProcessGone));
    assert_eq!(report, "Memory Max: 500\nCpu Max: 25\n500,400\n10,25\n");
    assert_eq!(sampler.status().len(), 2);
    assert_eq!(sampler.status().memory_usage(), &vec![500, 400]);
    assert_eq!(sampler.status().cpu_usage(), &vec![100, 250]);
}

#[test]
fn interrupt_during_second_tick_reports_first_sample() {
    let mut sampler = Sampler::new();
    tick(&mut sampler, 10, 64, 15);
    assert_eq!(sampler.step(Event::CpuBefore(15)), Action::Sleep);
    let report = report_of(sampler.step(Event::Interrupt));
    assert_eq!(report, "Memory Max: 64\nCpu Max: 0.5\n64\n0.5\n");
    assert_eq!(sampler.phase(), Phase::Done);
    let late = sampler.step(Event::Sampled { memory: 70, cpu_after: 30 });
    assert_eq!(late, Action::Stop);
    assert_eq!(sampler.status().len(), 1);
    assert_eq!(sampler.status().memory_usage(), &vec![64]);
}

#[test]
fn interrupt_between_ticks_reports_completed_samples() {
    let mut sampler = Sampler::new();
    tick(&mut sampler, 10, 64, 15);
    tick(&mut sampler, 15, 65, 1015);
    let report = report_of(sampler.step(Event::Interrupt));
    assert_eq!(report, "Memory Max: 65\nCpu Max: 100\n64,65\n0.5,100\n");
}

#[test]
fn exit_then_interrupt_reports_once() {
    let mut sampler = Sampler::new();
    tick(&mut sampler, 0, 1, 1);
    let first = sampler.step(Event::ProcessGone);
    let second = sampler.step(Event::Interrupt);
    assert_eq!(report_of(first), "Memory Max: 1\nCpu Max: 0.1\n1\n0.1\n");
    assert_eq!(second, Action::Stop);
}

#[test]
fn interrupt_then_exit_reports_once() {
    let mut sampler = Sampler::new();
    tick(&mut sampler, 0, 1, 1);
    let first = sampler.step(Event::Interrupt);
    let second = sampler.step(Event::ProcessGone);
    assert_eq!(report_of(first), "Memory Max: 1\nCpu Max: 0.1\n1\n0.1\n");
    assert_eq!(second, Action::Stop);
}

#[test]
fn any_run_reports_at_most_once() {
    let events = [
        Event::CpuBefore(3),
        Event::Interrupt,
        Event::Sampled { memory: 9, cpu_after: 4 },
        Event::ProcessGone,
        Event::Interrupt,
        Event::CpuBefore(8),
        Event::ProcessGone,
    ];
    for start in 0..events.len() {
        let mut sampler = Sampler::new();
        let mut reports = 0;
        for k in 0..events.len() {
            let event = events[(start + k) % events.len()];
            if let Action::Report(_) = sampler.step(event) {
                reports += 1;
            }
        }
        assert_eq!(reports, 1);
        assert_eq!(sampler.phase(), Phase::Done);
    }
}

#[test]
fn finished_sampler_changes_no_more() {
    let mut sampler = Sampler::new();
    tick(&mut sampler, 0, 8, 20);
    report_of(sampler.step(Event::Interrupt));
    for event in [
        Event::CpuBefore(20),
        Event::Sampled { memory: 9, cpu_after: 40 },
        Event::ProcessGone,
        Event::Interrupt,
    ] {
        assert_eq!(sampler.step(event), Action::Stop);
        assert_eq!(sampler.phase(), Phase::Done);
        assert_eq!(sampler.status().memory_usage(), &vec![8]);
        assert_eq!(sampler.status().cpu_usage(), &vec![20]);
    }
}

#[test]
fn events_out_of_phase_are_ignored() {
    let mut sampler = Sampler::new();
    let early = sampler.step(Event::Sampled { memory: 9, cpu_after: 40 });
    assert_eq!(early, Action::Ignored);
    assert_eq!(sampler.phase(), Phase::Idle);
    assert_eq!(sampler.status().len(), 0);
    assert_eq!(sampler.step(Event::CpuBefore(5)), Action::Sleep);
    assert_eq!(sampler.step(Event::CpuBefore(6)), Action::Ignored);
    assert_eq!(sampler.phase(), Phase::Sleeping { cpu_before: 5 });
    let action = sampler.step(Event::Sampled { memory: 9, cpu_after: 40 });
    assert_eq!(action, Action::Recorded(Sample { memory: 9, cpu: 35 }));
}

#[test]
fn negative_delta_is_recorded_as_zero() {
    let mut sampler = Sampler::new();
    let action = tick(&mut sampler, 1200, 10, 1000);
    assert_eq!(action, Action::Recorded(Sample { memory: 10, cpu: 0 }));
    let action = tick(&mut sampler, 1000, 11, 1007);
    assert_eq!(action, Action::Recorded(Sample { memory: 11, cpu: 7 }));
    assert_eq!(sampler.status().cpu_usage(), &vec![0, 7]);
    let report = report_of(sampler.step(Event::ProcessGone));
    assert_eq!(report, "Memory Max: 11\nCpu Max: 0.7\n10,11\n0,0.7\n");
}

#[test]
fn samples_keep_tick_order() {
    let mut sampler = Sampler::new();
    let mut cpu = 0;
    for i in 0..50u64 {
        let memory = (i * 37) % 11;
        let action = tick(&mut sampler, cpu, memory, cpu + i);
        assert_eq!(action, Action::Recorded(Sample { memory, cpu: i }));
        cpu += i;
        assert_eq!(sampler.status().len() as u64, i + 1);
        assert_eq!(sampler.status().memory_usage()[i as usize], memory);
        assert_eq!(sampler.status().cpu_usage()[i as usize], i);
    }
    for i in 0..50u64 {
        assert_eq!(sampler.status().memory_usage()[i as usize], (i * 37) % 11);
        assert_eq!(sampler.status().cpu_usage()[i as usize], i);
    }
}
