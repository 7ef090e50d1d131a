use win_memory::ai_hooks::difficulty_from_code;
use win_memory::{
    AccessRights, AiDifficulty, AiSlot, AiSlots, ExampleError, ExampleErrorKind, GameModeOptions,
    GameOptions, Handle, MemoryError, MemoryImage, ProcessDescriptor, SessionOptionsClass,
    Snapshot,
    TransposeIndexer, TransposedArray, Vector3D, WindowsProcess, YuriError, YuriErrorKind,
    YuriGameManager,
};

fn slots() -> AiSlots {
    AiSlots::new(
        [-1, 0, 1, 2, 3, -2, 70000, 2],
        [10, 11, 12, 13, 14, 15, 16, 17],
        [20, 21, 22, 23, 24, 25, 26, 27],
        [30, 31, 32, 33, 34, 35, 36, 37],
        [40, 41, 42, 43, 44, 45, 46, 47],
    )
}

fn game(base_address: usize) -> WindowsProcess {
    WindowsProcess {
        name: String::from("gamemd.exe"),
        pid: 100,
        base_address,
        handle: Handle::new(0x80),
        is_wow64: true,
    }
}

#[test]
fn difficulty_codes() {
    assert_eq!(difficulty_from_code(-1), AiDifficulty::Player);
    assert_eq!(difficulty_from_code(0), AiDifficulty::Hard);
    assert_eq!(difficulty_from_code(1), AiDifficulty::Normal);
    assert_eq!(difficulty_from_code(2), AiDifficulty::Easy);
    assert_eq!(difficulty_from_code(3), AiDifficulty::Extension { index: 3 });
    assert_eq!(difficulty_from_code(-2), AiDifficulty::Extension { index: 0xFFFE });
    assert_eq!(difficulty_from_code(70000), AiDifficulty::Extension { index: 4464 });
    assert_eq!(difficulty_from_code(i32::MIN), AiDifficulty::Extension { index: 0 });
    assert_eq!(difficulty_from_code(i32::MAX), AiDifficulty::Extension { index: 0xFFFF });
    assert_eq!(difficulty_from_code(0x1_0000), AiDifficulty::Extension { index: 0 });
}

#[test]
fn slot_is_made_of_the_elements_at_its_index() {
    let slots = slots();
    assert_eq!(
        slots.get_index(0),
        Some(AiSlot {
            difficulty: AiDifficulty::Player,
            country: 10,
            color: 20,
            start: 30,
            allies: 40
        })
    );
    assert_eq!(
        slots.get_index(7),
        Some(AiSlot {
            difficulty: AiDifficulty::Easy,
            country: 17,
            color: 27,
            start: 37,
            allies: 47
        })
    );
    assert_eq!(slots.get_index(5).unwrap().difficulty, AiDifficulty::Extension { index: 0xFFFE });
    assert_eq!(slots.get_index(8), None);
    assert_eq!(slots.get_index(usize::MAX), None);
}

#[test]
fn defaults_are_blank() {
    assert_eq!(AiDifficulty::default(), AiDifficulty::Easy);
    assert_eq!(AiSlot::default().difficulty, AiDifficulty::Easy);
    assert_eq!(AiSlot::default().country, 0);
    let slots = AiSlots::default();
    for index in 0..8 {
        assert_eq!(
            slots.get_index(index),
            Some(AiSlot {
                difficulty: AiDifficulty::Hard,
                country: 0,
                color: 0,
                start: 0,
                allies: 0
            })
        );
    }
    let blank = GameModeOptions::default().ai_slots();
    assert_eq!(blank.get_index(3), slots.get_index(3));
}

#[test]
fn game_mode_options_are_read_byte_for_byte() {
    let mut data = vec![0u8; 0x200];
    // The slots start 44 bytes into the record: difficulties, countries, ...
    data[44..48].copy_from_slice(&(-1i32).to_le_bytes());
    data[48..52].copy_from_slice(&5i32.to_le_bytes());
    data[44 + 32..44 + 36].copy_from_slice(&7i32.to_le_bytes());
    data[44 + 128 + 28..44 + 128 + 32].copy_from_slice(&(-9i32).to_le_bytes());
    let memory = MemoryImage::new(0xA8B250, data).unwrap();
    let mut target = game(0);
    let options = GameModeOptions::read(&target, &memory).unwrap();
    let slots = options.ai_slots();
    assert_eq!(slots.get_index(0).unwrap().difficulty, AiDifficulty::Player);
    assert_eq!(slots.get_index(0).unwrap().country, 7);
    assert_eq!(slots.get_index(1).unwrap().difficulty, AiDifficulty::Extension { index: 5 });
    assert_eq!(slots.get_index(7).unwrap().allies, -9);
    assert_eq!(slots.get_index(7).unwrap().country, 0);

    let mut other = MemoryImage::new(0xA8B250, vec![0xEE; 0x200]).unwrap();
    assert_eq!(options.write(&mut target, &mut other), Ok(()));
    assert_eq!(other.read_bytes(0xA8B250, 300), memory.read_bytes(0xA8B250, 300));
    assert_eq!(other.read::<u8>(0xA8B250 + 300), Ok(0xEE));

    let short = MemoryImage::new(0xA8B250, vec![0; 299]).unwrap();
    assert!(matches!(GameModeOptions::read(&target, &short), Err(MemoryError::ReadMemoryError)));
    let mut short = short;
    assert_eq!(options.write(&mut target, &mut short), Err(MemoryError::WriteMemoryError));
    assert!(matches!(
        GameModeOptions::read(&game(usize::MAX), &memory),
        Err(MemoryError::ReadMemoryError)
    ));
    let manager = YuriGameManager::attach(game(0));
    assert!(manager.game_mode_options(&memory).is_ok());
}

#[test]
fn indexer_walks_the_records_in_order() {
    let mut indexer = TransposeIndexer::new(slots());
    for index in 0..8 {
        assert_eq!(indexer.next(), slots().get_index(index));
    }
    assert_eq!(indexer.next(), None);
    assert_eq!(indexer.next(), None);
    assert_eq!(TransposedArray::get_index(&slots(), 3), slots().get_index(3));
}

#[test]
fn session_options_are_plain_data() {
    let options = SessionOptionsClass {
        mp_game_mode: 1,
        scen_index: 2,
        game_speed: 3,
        credits: 10000,
        unit_count: 10,
        short_game: true,
        super_weapons_allowed: false,
        build_off_ally: true,
        mcv_repacks: true,
        crates_appear: false,
        slot_data: [Vector3D { x: 1, y: 2, z: 3 }; 8],
    };
    let copy = options;
    assert_eq!(copy.credits, 10000);
    assert_eq!(copy.slot_data[7].z, 3);
}

#[test]
fn memory_errors_map_to_kinds() {
    assert_eq!(YuriError::from(MemoryError::ProcessNotFound).kind(), YuriErrorKind::UnknownError);
    assert_eq!(YuriError::from(MemoryError::GetHandleError).kind(), YuriErrorKind::UnknownError);
    assert_eq!(YuriError::from(MemoryError::ReadMemoryError).kind(), YuriErrorKind::UnknownError);
    assert_eq!(
        YuriError::from(MemoryError::CreateSnapshotFailure).kind(),
        YuriErrorKind::UnknownError
    );
    assert_eq!(
        YuriError::from(MemoryError::SystemError { win32: 5 }).kind(),
        YuriErrorKind::SystemError { win32: 5 }
    );
    assert_eq!(
        YuriError::from(MemoryError::IterateSnapshotFailure { win32: -7 }).kind(),
        YuriErrorKind::SystemError { win32: -7 }
    );
    assert_eq!(YuriError::from(YuriErrorKind::GameNotStart).kind(), YuriErrorKind::GameNotStart);
    assert_eq!(MemoryError::from_code(6), MemoryError::SystemError { win32: 6 });
}

#[test]
fn error_messages() {
    assert_eq!(YuriErrorKind::UnknownError.message(), "UnknownError");
    assert_eq!(YuriErrorKind::GameNotFound.message(), "GameNotFound");
    assert_eq!(YuriErrorKind::GameNotStart.message(), "GameNotStart");
    assert_eq!(YuriErrorKind::SystemError { win32: 5 }.message(), "SystemError: 5");
    assert_eq!(
        YuriErrorKind::SystemError { win32: -2147024891 }.message(),
        "SystemError: -2147024891"
    );
    assert_eq!(YuriError::from(YuriErrorKind::GameNotFound).message(), "GameNotFound");
    assert_eq!(win_memory::yuri_errors::system_error_text("0x5"), "SystemError: 0x5");
    assert_eq!(
        YuriError::from(MemoryError::SystemError { win32: 0 }).message(),
        "SystemError: 0"
    );
}

#[test]
fn example_error_keeps_its_kind() {
    let error = ExampleError::from(ExampleErrorKind::UnknownError);
    assert_eq!(error.kind(), ExampleErrorKind::UnknownError);
}

#[test]
fn game_options_come_from_fixed_offsets() {
    let mut memory = MemoryImage::new(0xA8B250, vec![0; 0x100]).unwrap();
    for address in [0xA8B258usize, 0xA8B261, 0xA8B263, 0xA8B31C, 0xA8B31E, 0xA8B320] {
        memory.write::<bool>(address, true).unwrap();
    }
    let options = GameOptions::current(&game(0), &memory).unwrap();
    assert_eq!(
        options,
        GameOptions {
            bases: true,
            bridge_destruction: false,
            crates: true,
            short_game: false,
            sw_allowed: true,
            multi_engineer: false,
            allies_allowed: true,
            harvester_truce: false,
            ctf: true,
            fow: false,
            mcv_redeploy: true,
        }
    );
    let short = MemoryImage::new(0xA8B250, vec![1; 0xD0]).unwrap();
    assert_eq!(
        GameOptions::current(&game(0), &short).unwrap_err().kind(),
        YuriErrorKind::UnknownError
    );
    let exact = MemoryImage::new(0xA8B250, vec![1; 0xD1]).unwrap();
    assert!(GameOptions::current(&game(0), &exact).unwrap().mcv_redeploy);
    let moved = MemoryImage::new(0xA8B250 + 0x1000, vec![1; 0xD1]).unwrap();
    assert!(GameOptions::current(&game(0x1000), &moved).unwrap().bases);
    assert!(GameOptions::current(&game(0), &moved).is_err());
}

#[test]
fn manager_picks_the_game() {
    let other = ProcessDescriptor { name: String::from("Gamemd.exe"), pid: 1 };
    let snapshot = Snapshot::new(vec![
        other.clone(),
        ProcessDescriptor { name: String::from("gamemd.exe"), pid: 2 },
    ]);
    let picked = YuriGameManager::new(snapshot).unwrap();
    assert_eq!(picked.pid, 2);
    assert_eq!(picked.name, "gamemd.exe");
    assert_eq!(picked.access, AccessRights::FullAccess);
    let without = Snapshot::new(vec![other]);
    assert_eq!(YuriGameManager::new(without).unwrap_err().kind(), YuriErrorKind::UnknownError);
}

#[test]
fn manager_reads_options_and_sets_feedback() {
    let mut manager = YuriGameManager::attach(game(0));
    let mut memory = MemoryImage::new(0x822CF0, vec![0; 4]).unwrap();
    assert!(manager.set_move_feedback(true, &mut memory));
    assert_eq!(memory.data(), &[0, 0, 1, 0]);
    assert!(manager.set_move_feedback(false, &mut memory));
    assert_eq!(memory.data(), &[0, 0, 0, 0]);
    let mut elsewhere = MemoryImage::new(0x1000, vec![0; 4]).unwrap();
    assert!(!manager.set_move_feedback(true, &mut elsewhere));
    assert_eq!(elsewhere.data(), &[0, 0, 0, 0]);
    assert!(manager.game_options(&memory).is_err());
    let options = MemoryImage::new(0xA8B250, vec![0; 0x100]).unwrap();
    assert!(!manager.game_options(&options).unwrap().bases);
}
