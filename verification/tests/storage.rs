use faderpunk::apps::{clk_div, seq8, tb3po};
use faderpunk::storage::{
    calibration_format, erase_range, factory_reset, frame, load_calibration_data,
    load_global_config, load_layout, load_runtime_state, resume_reset, saver_task, store_calibration_data,
    store_global_config, store_layout, store_runtime_state, unframe, AppParamCmd, AppParams,
    AppParamsAddress, AppStorageAddress, Arr, Calibration, CalibrationFormat, ManagedStorage,
    ParamOutcome, ParamStore, SaverEvent, SaverState,
};
use faderpunk::types::{Color, MidiChannel, MidiOut, Value};

#[test]
fn storage_addresses_round_trip() {
    for layout_id in 0..17u8 {
        for scene in std::iter::once(None).chain((0..16u8).map(Some)) {
            let key = AppStorageAddress::new(layout_id, scene);
            let address = u32::from(key);
            assert_eq!(AppStorageAddress::from_address(address), key);
            assert_eq!(AppStorageAddress::from_address(address + 399), key);
            assert!(address >= 1024 && address + 400 <= 122_880);
        }
    }
    assert_eq!(u32::from(AppStorageAddress::new(0, None)), 1024);
    assert_eq!(u32::from(AppStorageAddress::new(1, Some(2))), 1024 + 6800 + 1200);
    for layout_id in 0..64u8 {
        let key = AppParamsAddress::new(layout_id);
        assert_eq!(AppParamsAddress::from_address(u32::from(key) + 127), key);
    }
    assert_eq!(u32::from(AppParamsAddress::new(2)), 122_880 + 256);
}

#[test]
fn regions_have_their_addresses() {
    assert_eq!(store_global_config(vec![1]).addr, 0);
    assert_eq!(store_runtime_state(vec![1]).addr, 320);
    assert_eq!(store_layout(vec![1]).addr, 384);
    let write = store_calibration_data(vec![1, 2]);
    assert_eq!((write.addr, write.data), (512, vec![1, 2]));
}

#[test]
fn erasing_goes_by_chunks() {
    let plan = erase_range(320, 484, 1000);
    let chunks: Vec<(u32, u32)> = plan.iter().map(|c| (c.addr, c.len)).collect();
    assert_eq!(chunks, vec![(320, 64), (384, 64), (448, 36)]);
    let small: Vec<u32> = erase_range(0, 10, 4).iter().map(|c| c.len).collect();
    assert_eq!(small, vec![4, 4, 2]);
    assert!(erase_range(0, 10, 0).is_empty());
    assert!(erase_range(10, 10, 64).is_empty());
}

#[test]
fn calibration_is_never_erased() {
    assert!(erase_range(0, 513, 64).is_empty());
    assert!(erase_range(1023, 2000, 64).is_empty());
    assert!(!erase_range(1024, 2000, 64).is_empty());
    let mut erased = vec![false; 131_072];
    for chunk in factory_reset(64) {
        for i in chunk.addr..chunk.addr + chunk.len {
            erased[i as usize] = true;
        }
    }
    for (i, done) in erased.iter().enumerate() {
        assert_eq!(*done, !(512..1024).contains(&i));
    }
}

#[test]
fn a_failed_write_ends_its_range() {
    let plan = factory_reset(64);
    assert_eq!(plan[1].addr, 64);
    let next = resume_reset(&plan, 1);
    assert_eq!(plan[next].addr, 320);
    let next = resume_reset(&plan, next);
    assert_eq!(plan[next].addr, 384);
    let next = resume_reset(&plan, next);
    assert_eq!(plan[next].addr, 1024);
    let next = resume_reset(&plan, next);
    assert_eq!(plan[next].addr, 122_880);
    assert_eq!(resume_reset(&plan, next), plan.len());
}

#[test]
fn loading_falls_back() {
    let read = Some(vec![1u8]);
    assert_eq!(load_global_config(&read, Some(7), 1), 7);
    assert_eq!(load_global_config(&read, None, 1), 1);
    assert_eq!(load_global_config(&Some(vec![]), Some(7), 1), 1);
    assert_eq!(load_runtime_state(&None, Some(7), 1), 1);
    assert_eq!(load_layout(&read, Some((7, false)), 1), (7, false));
    assert_eq!(load_layout(&read, Some((7, true)), 1), (7, true));
    assert_eq!(load_layout(&None::<Vec<u8>>, Some((7, false)), 1), (1, true));
}

#[test]
fn calibration_formats_are_told_apart() {
    let magic = [1, 2, 3, 4];
    assert_eq!(calibration_format(&vec![1, 2, 3], magic), CalibrationFormat::Missing);
    assert_eq!(calibration_format(&vec![1, 2, 3, 4, 9], magic), CalibrationFormat::File);
    assert_eq!(calibration_format(&vec![1, 2, 3, 5, 9], magic), CalibrationFormat::Legacy);
    let file = Some(vec![1, 2, 3, 4]);
    let legacy = Some(vec![0, 0, 0, 0]);
    assert!(matches!(
        load_calibration_data(&file, magic, Some((2, 'a')), None),
        Calibration::Loaded('a')
    ));
    assert!(matches!(
        load_calibration_data(&file, magic, Some((3, 'a')), Some('b')),
        Calibration::Nothing
    ));
    assert!(matches!(
        load_calibration_data(&file, magic, None, Some('b')),
        Calibration::Nothing
    ));
    assert!(matches!(
        load_calibration_data(&legacy, magic, Some((2, 'a')), Some('b')),
        Calibration::Converted('b')
    ));
    assert!(matches!(
        load_calibration_data(&None, magic, Some((2, 'a')), Some('b')),
        Calibration::Nothing
    ));
}

#[test]
fn frames_belong_to_one_app() {
    let data = frame(9, &vec![1, 2, 3]);
    assert_eq!(data, vec![9, 1, 2, 3]);
    assert_eq!(unframe(9, &data), Some(vec![1, 2, 3]));
    assert_eq!(unframe(8, &data), None);
    assert_eq!(unframe(8, &vec![]), None);
}

#[test]
fn arrays_are_stored_whole() {
    let mut arr = Arr::<u16, 4>::new([1, 2, 3, 4]);
    assert_eq!(arr.at(2), 3);
    arr.set_at(2, 9);
    assert_eq!(arr.get(), [1, 2, 9, 4]);
    arr.set([0; 4]);
    assert_eq!(arr.get(), Arr::<u16, 4>::default().get());
    assert_eq!(Arr::<u8, 2>::from_entries(&[5, 6]).unwrap().get(), [5, 6]);
    assert!(Arr::<u8, 2>::from_entries(&[5]).is_none());
    assert!(Arr::<u8, 2>::from_entries(&[5, 6, 7]).is_none());
}

fn store() -> ParamStore<clk_div::Params> {
    clk_div::wrapper(faderpunk::app::App::new(7, 0, 3)).0
}

#[test]
fn params_are_listed_and_read_back() {
    let store = store();
    let values = store.send_values();
    assert_eq!(
        values.as_slice(),
        &[
            Value::MidiChannel(MidiChannel(1)),
            Value::MidiNote(faderpunk::types::MidiNote(32)),
            Value::Int(50),
            Value::Color(Color::Cyan),
            Value::MidiOut(MidiOut { usb: false, out1: false, out2: false }),
        ]
    );
    let read = clk_div::Params::from_values(values.as_slice());
    assert_eq!(read, Some(store.inner));
    assert_eq!(clk_div::Params::from_values(&values.as_slice()[..4]), None);
    // Values of another type read as defaults.
    let mixed = [Value::Int(1), Value::Int(1), Value::Flag(true), Value::Int(2), Value::Int(3)];
    let read = clk_div::Params::from_values(&mixed).unwrap();
    assert_eq!(read.midi_channel, MidiChannel(1));
    assert_eq!(read.gatel, 0);
    assert_eq!(read.color, Color::White);
}

#[test]
fn param_commands_change_and_restart() {
    let mut store = store();
    assert!(matches!(
        store.param_handler(AppParamCmd::RequestParamValues),
        ParamOutcome::Report
    ));
    // The current values change nothing.
    let same = AppParamCmd::SetAppParams { values: vec![None, None, Some(Value::Int(50))] };
    assert!(matches!(store.param_handler(same), ParamOutcome::Report));
    assert_eq!(store.inner.gatel, 50);
    let other = AppParamCmd::SetAppParams {
        values: vec![None, None, Some(Value::Int(25)), None, None, Some(Value::Int(1))],
    };
    assert!(matches!(store.param_handler(other), ParamOutcome::SaveAndRestart));
    assert_eq!(store.inner.gatel, 25);
    let write = store.save(&vec![4, 5]);
    assert_eq!((write.addr, write.data.clone()), (122_880 + 3 * 128, vec![7, 4, 5]));
    assert_eq!(store.des(&write.data), Some(vec![4, 5]));
    store.load(&[Value::Int(1)]);
    assert_eq!(store.inner.gatel, 25);
    assert_eq!(store.query(|p: &clk_div::Params| p.gatel), 25);
}

#[test]
fn managed_storage_asks_for_a_save() {
    let mut storage: ManagedStorage<tb3po::Storage> =
        tb3po::wrapper(faderpunk::app::App::new(4, 0, 2)).1;
    assert!(!storage.save_signal);
    let old = storage.modify(|s: &mut tb3po::Storage| {
        let old = s.seed;
        s.seed = 1;
        old
    });
    assert_eq!((old, storage.save_signal), (0xABCD, false));
    storage.modify_and_save(|s: &mut tb3po::Storage| s.seed = 2);
    assert!(storage.save_signal);
    assert_eq!(storage.query(|s: &tb3po::Storage| s.seed), 2);
    let write = storage.save_to_scene(5, &vec![1]);
    assert_eq!((write.addr, write.data), (1024 + 2 * 6800 + 6 * 400, vec![4, 1]));
    assert_eq!(storage.save(&vec![1]).addr, 1024 + 2 * 6800);
    storage.load_from_scene(None);
    assert_eq!(storage.inner.seed, 2);
    storage.reset();
    assert_eq!(storage.inner.seed, 0xABCD);
}

#[test]
fn changes_are_saved_once() {
    let mut state = SaverState::Idle;
    assert!(!saver_task(&mut state, SaverEvent::Signal));
    assert!(!saver_task(&mut state, SaverEvent::Signal));
    assert!(saver_task(&mut state, SaverEvent::Timeout));
    assert!(!saver_task(&mut state, SaverEvent::Timeout));
    assert_eq!(state, SaverState::Idle);
}

#[test]
fn sequencer_storage_starts_with_open_gates() {
    let storage = seq8::Storage::default();
    assert_eq!(storage.seq.get(), [0; 64]);
    assert!(storage.gateseq.get().iter().all(|g| *g));
    assert_eq!(storage.length_fader, [3840; 4]);
}

#[test]
fn arrays_are_equal_where_their_entries_are() {
    assert!(Arr::new([1u16, 2, 3]) == Arr::new([1, 2, 3]));
    assert!(Arr::new([1u16, 2, 3]) != Arr::new([1, 2, 4]));
    assert!(Arr::new([0u16, 2, 3]) != Arr::new([1, 2, 3]));
    assert!(Arr::<bool, 0>::new([]) == Arr::default());
    // Entries that are not equal to themselves.
    let nan = Arr::new([1.0f32, f32::NAN]);
    assert!(nan != nan);
}
