use win_memory::module::read_module;
use win_memory::{
    ChainStep, Handle, MemoryError, MemoryImage, Module, ModuleDescriptor, PatternToken,
    Signature, WindowsProcess,
};

fn process(base_address: usize, is_wow64: bool) -> WindowsProcess {
    WindowsProcess {
        name: String::from("game.exe"),
        pid: 100,
        base_address,
        handle: Handle::new(0x80),
        is_wow64,
    }
}

fn image(base: usize, data: &[u8]) -> MemoryImage {
    MemoryImage::new(base, data.to_vec()).unwrap()
}

#[test]
fn read_data_adds_the_base_address() {
    let memory = image(0x40_0000, &[0x11, 0x22, 0x33, 0x44, 0x55, 0x66, 0x77, 0x88]);
    let target = process(0x40_0000, true);
    assert_eq!(target.read_data::<u32>(4, &memory), Ok(0x8877_6655));
    assert_eq!(target.read_data_absolute::<u32>(0x40_0004, &memory), Ok(0x8877_6655));
    assert_eq!(target.read_data::<u16>(0, &memory), Ok(0x2211));
    assert_eq!(target.read_data::<u32>(5, &memory), Err(MemoryError::ReadMemoryError));
    assert_eq!(target.read_data::<u8>(usize::MAX, &memory), Err(MemoryError::ReadMemoryError));
    assert_eq!(target.read_data_absolute::<u8>(4, &memory), Err(MemoryError::ReadMemoryError));
}

#[test]
fn process_reads_and_writes_bytes() {
    let mut memory = image(0x1000, &[0; 8]);
    let target = process(0x1000, false);
    assert_eq!(target.write_bytes(0x1002, &[0x48, 0xC7, 0xC0], &mut memory), Ok(()));
    assert_eq!(target.read_bytes(0x1001, 4, &memory), Ok(vec![0, 0x48, 0xC7, 0xC0]));
    assert_eq!(
        target.write_bytes(0x1006, &[1, 2, 3], &mut memory),
        Err(MemoryError::WriteMemoryError)
    );
    assert_eq!(target.read_bytes(0x1006, 3, &memory), Err(MemoryError::ReadMemoryError));
    assert_eq!(memory.data(), &[0, 0, 0x48, 0xC7, 0xC0, 0, 0, 0]);
}

#[test]
fn process_write_then_read_round_trip() {
    let mut memory = image(0x1000, &[0; 16]);
    let target = process(0x1000, false);
    assert_eq!(target.write_data::<i32>(0x1004, 1337, &mut memory), Ok(()));
    assert_eq!(target.read_data_absolute::<i32>(0x1004, &memory), Ok(1337));
    assert_eq!(target.read_data::<i32>(4, &memory), Ok(1337));
    assert_eq!(
        target.write_data::<u64>(0x100C, 1, &mut memory),
        Err(MemoryError::WriteMemoryError)
    );
}

#[test]
fn pointer_width_follows_the_target() {
    let mut data = vec![0u8; 0x20];
    data[0x08..0x10].copy_from_slice(&0x0000_0001_0000_1010u64.to_le_bytes());
    let memory = image(0x1000, &data);
    assert_eq!(process(0, true).read_ptr_chain(vec![0x1000, 0x8, 0x4], &memory), Ok(0x1014));
    if usize::BITS == 64 {
        assert_eq!(
            process(0, false).read_ptr_chain(vec![0x1000, 0x8, 0x4], &memory),
            Ok(0x1_0000_1014)
        );
    }
}

#[test]
fn read_mem_chain_reads_at_the_end() {
    let mut data = vec![0u8; 0x20];
    data[0x00..0x04].copy_from_slice(&0x1010u32.to_le_bytes());
    data[0x14..0x18].copy_from_slice(&0xCAFE_F00Du32.to_le_bytes());
    let memory = image(0x1000, &data);
    let target = process(0x1000, true);
    assert_eq!(target.read_mem_chain::<u32>(vec![0x1000, 0, 4], &memory), Ok(0xCAFE_F00D));
    assert_eq!(target.read_mem_chain::<u32>(vec![0x1000, 0x14], &memory), Ok(0xCAFE_F00D));
    assert_eq!(
        target.read_mem_chain::<u32>(vec![0x1000, 0, 0x10], &memory),
        Err(MemoryError::ReadMemoryError)
    );
    assert_eq!(
        target.read_mem_chain::<u32>(vec![0x1000], &memory),
        Err(MemoryError::AddressOutOfBounds)
    );
}

#[test]
fn walk_chain_uses_the_width_of_the_process() {
    match process(0, true).walk_chain(vec![0x1000, 0x8, 0x4]).unwrap() {
        ChainStep::Deref(pending) => {
            assert_eq!(pending.address(), 0x1008);
            assert_eq!(pending.width(), 4);
        }
        ChainStep::Done(_) => panic!("the walk ended without a read"),
    }
    match process(0, false).walk_chain(vec![0x1000, 0x8, 0x4]).unwrap() {
        ChainStep::Deref(pending) => assert_eq!(pending.width(), 8),
        ChainStep::Done(_) => panic!("the walk ended without a read"),
    }
    assert!(matches!(
        process(0, false).walk_chain(vec![0x1000, 0x8]),
        Ok(ChainStep::Done(0x1008))
    ));
}

#[test]
fn read_module_needs_the_whole_transfer() {
    let memory = read_module(0x1000, 3, Some(vec![1, 2, 3])).unwrap();
    assert_eq!(memory.base_address(), 0x1000);
    assert_eq!(memory.data(), &[1, 2, 3]);
    assert!(matches!(read_module(0x1000, 3, None), Err(MemoryError::ReadMemoryError)));
    assert!(matches!(
        read_module(0x1000, 3, Some(vec![1, 2])),
        Err(MemoryError::ReadMemoryError)
    ));
    assert!(matches!(
        read_module(0x1000, 3, Some(vec![1, 2, 3, 4])),
        Err(MemoryError::ReadMemoryError)
    ));
    assert!(matches!(
        read_module(usize::MAX, 2, Some(vec![1, 2])),
        Err(MemoryError::ReadMemoryError)
    ));
}

#[test]
fn module_scans_its_own_image() {
    let descriptor = ModuleDescriptor {
        name: String::from("client.dll"),
        path: String::from("C:\\client.dll"),
        base_address: 0x1000_0000,
        size: 6,
    };
    let module = Module::new(descriptor.clone(), 100, Some(vec![0x55, 0x8B, 0xEC, 0x83, 0xE4, 0xF8]))
        .unwrap();
    assert_eq!(module.name(), "client.dll");
    assert_eq!(module.path(), "C:\\client.dll");
    assert_eq!(module.pid(), 100);
    assert_eq!(module.base_address(), 0x1000_0000);
    assert_eq!(module.base_size(), 6);
    assert_eq!(module.data(), &[0x55, 0x8B, 0xEC, 0x83, 0xE4, 0xF8]);
    assert_eq!(module.memory().len(), 6);
    let signature = Signature {
        name: String::from("prologue"),
        pattern: vec![PatternToken::Byte(0x8B), PatternToken::Wildcard, PatternToken::Byte(0x83)],
        offsets: vec![2],
        extra: 0,
        relative: false,
        rip_relative: false,
        rip_offset: 0,
    };
    assert_eq!(module.find_signature(&signature), Ok(0x1000_0003));
    assert!(matches!(
        Module::new(descriptor.clone(), 100, Some(vec![0x55])),
        Err(MemoryError::ReadMemoryError)
    ));
    assert!(matches!(Module::new(descriptor, 100, None), Err(MemoryError::ReadMemoryError)));
}
