use emulator::cpu::{Cpu, ImageError, StepError};
use emulator::loader::{
    is_section_in_loaded_segments, ElfImage, ProgramSegment, RelocationNote, SectionEntry, EM_RISCV,
    ET_EXEC, PT_LOAD, RAM_BASE, RAM_SIZE, SHT_RELA,
};
use emulator::memory::{Access, MemoryError};

const EM_X86: u16 = 3;

/// An ELF32 little-endian file with at most one program header, whose segment
/// data follows the headers.
fn elf32(e_type: u16, machine: u16, entry: u32, segment: Option<(u32, u32, &[u8])>) -> Vec<u8> {
    let mut b = vec![0x7f, b'E', b'L', b'F', 1, 1, 1, 0, 0, 0, 0, 0, 0, 0, 0, 0];
    let phnum: u16 = if segment.is_some() { 1 } else { 0 };
    let phoff: u32 = if segment.is_some() { 52 } else { 0 };
    b.extend_from_slice(&e_type.to_le_bytes());
    b.extend_from_slice(&machine.to_le_bytes());
    b.extend_from_slice(&1u32.to_le_bytes());
    b.extend_from_slice(&entry.to_le_bytes());
    b.extend_from_slice(&phoff.to_le_bytes());
    b.extend_from_slice(&0u32.to_le_bytes());
    b.extend_from_slice(&0u32.to_le_bytes());
    b.extend_from_slice(&52u16.to_le_bytes());
    b.extend_from_slice(&32u16.to_le_bytes());
    b.extend_from_slice(&phnum.to_le_bytes());
    b.extend_from_slice(&40u16.to_le_bytes());
    b.extend_from_slice(&0u16.to_le_bytes());
    b.extend_from_slice(&0u16.to_le_bytes());
    assert_eq!(b.len(), 52);
    if let Some((p_type, vaddr, data)) = segment {
        let fields = [p_type, 84, vaddr, vaddr, data.len() as u32, data.len() as u32, 5, 4];
        for f in fields {
            b.extend_from_slice(&f.to_le_bytes());
        }
        b.extend_from_slice(data);
    }
    b
}

fn words(ws: &[u32]) -> Vec<u8> {
    ws.iter().flat_map(|w| w.to_le_bytes()).collect()
}

#[test]
fn wrong_machine_is_rejected() {
    let bytes = elf32(ET_EXEC, EM_X86, 0, None);
    assert_eq!(Cpu::from_elf(&bytes).err(), Some(ImageError::WrongMachine(EM_X86)));
}

#[test]
fn non_executable_is_rejected() {
    let bytes = elf32(1, EM_RISCV, 0, None);
    assert_eq!(Cpu::from_elf(&bytes).err(), Some(ImageError::NotExecutable(1)));
}

#[test]
fn garbage_is_malformed() {
    assert_eq!(Cpu::from_elf(&[1, 2, 3, 4]).err(), Some(ImageError::Malformed));
    assert_eq!(ElfImage::parse(&[]).err(), Some(ImageError::Malformed));
}

#[test]
fn parse_reads_header_and_segments() {
    let data = words(&[0x0050_0093]);
    let bytes = elf32(ET_EXEC, EM_RISCV, 0x10, Some((PT_LOAD, 0x20, &data)));
    let img = ElfImage::parse(&bytes).unwrap();
    assert_eq!(img.e_type, ET_EXEC);
    assert_eq!(img.e_machine, EM_RISCV);
    assert_eq!(img.e_entry, 0x10);
    assert_eq!(img.segments.len(), 1);
    assert_eq!(img.segments[0].p_type, PT_LOAD);
    assert_eq!(img.segments[0].p_offset, 84);
    assert_eq!(img.segments[0].p_vaddr, 0x20);
    assert_eq!(img.segments[0].p_filesz, 4);
    assert_eq!(img.segments[0].data, Some(data));
    assert!(img.sections.is_empty());
}

#[test]
fn loads_segment_and_runs_from_entry() {
    // addi x1, x0, 5 ; addi x2, x1, 7 at virtual address 0x100
    let data = words(&[0x0050_0093, 0x0070_8113]);
    let bytes = elf32(ET_EXEC, EM_RISCV, 0x100, Some((PT_LOAD, 0x100, &data)));
    let mut cpu = Cpu::from_elf(&bytes).unwrap();
    assert_eq!(cpu.pc(), RAM_BASE + 0x100);
    assert_eq!(cpu.read(RAM_BASE + 0x100), Ok(0x0050_0093));
    assert_eq!(cpu.read(RAM_BASE), Ok(0));
    assert_eq!(cpu.status(), None);
    cpu.step().unwrap();
    cpu.step().unwrap();
    assert_eq!(cpu.register(2), 12);
}

#[test]
fn non_load_segment_is_skipped() {
    let data = words(&[0xdead_beef]);
    let bytes = elf32(ET_EXEC, EM_RISCV, 0, Some((4, 0x100, &data)));
    let cpu = Cpu::from_elf(&bytes).unwrap();
    assert_eq!(cpu.read(RAM_BASE + 0x100), Ok(0));
}

#[test]
fn segment_outside_ram_is_rejected() {
    let data = words(&[0x0050_0093]);
    let bytes = elf32(ET_EXEC, EM_RISCV, 0, Some((PT_LOAD, RAM_SIZE as u32 - 2, &data)));
    assert_eq!(Cpu::from_elf(&bytes).err(), Some(ImageError::SegmentOutsideRam(0)));
}

#[test]
fn entry_outside_ram_is_rejected() {
    let bytes = elf32(ET_EXEC, EM_RISCV, RAM_SIZE as u32, None);
    assert_eq!(Cpu::from_elf(&bytes).err(), Some(ImageError::EntryNotMapped(RAM_SIZE as u64)));
}

#[test]
fn elf_jump_below_ram_faults_on_next_fetch() {
    // jal x0, -4 at the start of RAM
    let data = words(&[0xffdf_f06f]);
    let bytes = elf32(ET_EXEC, EM_RISCV, 0, Some((PT_LOAD, 0, &data)));
    let mut cpu = Cpu::from_elf(&bytes).unwrap();
    assert_eq!(cpu.step(), Ok(()));
    assert_eq!(cpu.pc(), RAM_BASE - 4);
    assert_eq!(
        cpu.step(),
        Err(StepError::Memory(MemoryError::Unmapped { addr: RAM_BASE - 4, access: Access::Read }))
    );
}

fn section(sh_type: u32, sh_info: u32, sh_offset: u64, sh_size: u64, rela_count: Option<usize>) -> SectionEntry {
    SectionEntry::new(sh_type, sh_info, sh_offset, sh_size, rela_count)
}

fn hand_image(segments: Vec<ProgramSegment>, sections: Vec<SectionEntry>) -> ElfImage {
    ElfImage { e_type: ET_EXEC, e_machine: EM_RISCV, e_entry: 0, segments, sections }
}

#[test]
fn missing_segment_data_is_rejected() {
    let img = hand_image(
        vec![
            ProgramSegment::new(6, 0, 0, 0, None),
            ProgramSegment::new(PT_LOAD, 0x100, 0, 4, None),
        ],
        vec![],
    );
    assert_eq!(Cpu::from_image(&img).err(), Some(ImageError::SegmentData(1)));
}

#[test]
fn later_segments_overwrite_earlier_ones() {
    let img = hand_image(
        vec![
            ProgramSegment::new(PT_LOAD, 0x100, 0, 8, Some(words(&[1, 2]))),
            ProgramSegment::new(PT_LOAD, 0x200, 4, 4, Some(words(&[3]))),
        ],
        vec![],
    );
    let cpu = Cpu::from_image(&img).unwrap();
    assert_eq!(cpu.read(RAM_BASE), Ok(1));
    assert_eq!(cpu.read(RAM_BASE + 4), Ok(3));
    assert_eq!(cpu.pc(), RAM_BASE);
}

#[test]
fn section_containment() {
    let loaded = [(0x100u64, 0x100u64), (0x400, 0x10)];
    assert!(is_section_in_loaded_segments(&section(1, 0, 0x100, 0x100, None), &loaded));
    assert!(is_section_in_loaded_segments(&section(1, 0, 0x404, 0x0c, None), &loaded));
    assert!(!is_section_in_loaded_segments(&section(1, 0, 0x1f0, 0x20, None), &loaded));
    assert!(!is_section_in_loaded_segments(&section(1, 0, 0x0f0, 0x8, None), &loaded));
    assert!(!is_section_in_loaded_segments(&section(1, 0, 0x100, 0, None), &[]));
}

#[test]
fn relocations_are_counted_not_applied() {
    let img = hand_image(
        vec![
            ProgramSegment::new(PT_LOAD, 0x100, 0, 8, Some(words(&[7, 8]))),
            ProgramSegment::new(4, 0x300, 0, 0x10, Some(vec![0; 16])),
        ],
        vec![
            section(0, 0, 0, 0, None),
            section(1, 0, 0x100, 8, None),
            section(SHT_RELA, 1, 0x200, 0x18, Some(2)),
            section(1, 0, 0x300, 0x10, None),
            section(SHT_RELA, 3, 0x220, 0x0c, Some(1)),
            section(SHT_RELA, 9, 0x230, 0x0c, Some(1)),
        ],
    );
    assert_eq!(img.relocation_report(), vec![RelocationNote { section: 2, target: 1, count: 2 }]);
    let cpu = Cpu::from_image(&img).unwrap();
    assert_eq!(cpu.read(RAM_BASE), Ok(7));
    assert_eq!(cpu.read(RAM_BASE + 4), Ok(8));
}

#[test]
fn empty_segment_at_end_of_ram_is_rejected() {
    let img = hand_image(vec![ProgramSegment::new(PT_LOAD, 0x100, RAM_SIZE as u64, 0, Some(vec![]))], vec![]);
    assert_eq!(Cpu::from_image(&img).err(), Some(ImageError::SegmentOutsideRam(0)));
    let bytes = elf32(ET_EXEC, EM_RISCV, 0, Some((PT_LOAD, RAM_SIZE as u32, &[])));
    assert_eq!(Cpu::from_elf(&bytes).err(), Some(ImageError::SegmentOutsideRam(0)));
}

#[test]
fn empty_segment_inside_ram_is_accepted() {
    let bytes = elf32(ET_EXEC, EM_RISCV, 0, Some((PT_LOAD, RAM_SIZE as u32 - 1, &[])));
    assert!(Cpu::from_elf(&bytes).is_ok());
}
