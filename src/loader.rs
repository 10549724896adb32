use vstd::prelude::*;
use elf::endian::LittleEndian;
use elf::ElfBytes;
use crate::cpu::{ImageError, Machine, DEBUG_BASE};
use crate::memory::Ram;

verus! {

/// Base address of RAM for an ELF image.
pub const RAM_BASE: u32 = 0xE000_0000;

/// Size of RAM for an ELF image.
pub const RAM_SIZE: usize = 0x1000_0000;

/// Added to every segment address and to the entry address of an ELF image.
pub const LOAD_OFFSET: u32 = 0xE000_0000;

/// `e_type` of an executable file.
pub const ET_EXEC: u16 = 2;

/// `e_machine` of RISC-V.
pub const EM_RISCV: u16 = 243;

/// `p_type` of a loadable segment.
pub const PT_LOAD: u32 = 1;

/// `sh_type` of a relocation section with addends.
pub const SHT_RELA: u32 = 4;

#[verifier::external_type_specification]
#[verifier::external_body]
pub struct ExParseError(elf::ParseError);

/// A program header, with the segment's bytes when the file holds them.
pub struct ProgramSegment {
    pub p_type: u32,
    pub p_offset: u64,
    pub p_vaddr: u64,
    pub p_filesz: u64,
    pub data: Option<Vec<u8>>,
}

/// A section header, with the number of relocation entries when it is a
/// relocation section whose data could be read.
#[derive(Debug, Clone, Copy, PartialEq, Eq, Structural)]
pub struct SectionEntry {
    pub sh_type: u32,
    pub sh_info: u32,
    pub sh_offset: u64,
    pub sh_size: u64,
    pub rela_count: Option<usize>,
}

/// The parts of an ELF file that loading reads.
pub struct ElfImage {
    pub e_type: u16,
    pub e_machine: u16,
    pub e_entry: u64,
    pub segments: Vec<ProgramSegment>,
    pub sections: Vec<SectionEntry>,
}

pub struct SegmentView {
    pub p_type: u32,
    pub p_offset: u64,
    pub p_vaddr: u64,
    pub p_filesz: u64,
    pub data: Option<Seq<u8>>,
}

pub struct ElfView {
    pub e_type: u16,
    pub e_machine: u16,
    pub e_entry: u64,
    pub segments: Seq<SegmentView>,
    pub sections: Seq<SectionEntry>,
}

impl View for ProgramSegment {
    type V = SegmentView;

    open spec fn view(&self) -> SegmentView {
        SegmentView {
            p_type: self.p_type,
            p_offset: self.p_offset,
            p_vaddr: self.p_vaddr,
            p_filesz: self.p_filesz,
            data: match self.data {
                Some(d) => Some(d@),
                None => None,
            },
        }
    }
}

impl View for ElfImage {
    type V = ElfView;

    open spec fn view(&self) -> ElfView {
        ElfView {
            e_type: self.e_type,
            e_machine: self.e_machine,
            e_entry: self.e_entry,
            segments: self.segments@.map_values(|s: ProgramSegment| s@),
            sections: self.sections@,
        }
    }
}

/// Each segment's data is present exactly when its file range
/// `[p_offset, p_offset + p_filesz)` lies inside the file, and is then those bytes.
pub open spec fn segments_from_file(bytes: Seq<u8>, segs: Seq<SegmentView>) -> bool {
    forall|i: int|
        0 <= i < segs.len() ==> {
            let s = #[trigger] segs[i];
            &&& (s.data is Some <==> s.p_offset + s.p_filesz <= bytes.len())
            &&& (s.data is Some ==> s.data.unwrap() == bytes.subrange(
                s.p_offset as int,
                s.p_offset + s.p_filesz,
            ))
        }
}

/// What the ELF parser reads from a file's bytes; `None` when it rejects them.
pub uninterp spec fn elf_image_of(bytes: Seq<u8>) -> Option<ElfView>;

/// Relies on `elf::ElfBytes::minimal_parse` to parse the file, and on its
/// `segments`, `segment_data`, `section_headers` and `section_data_as_relas`
/// to read the program headers with their data and the section headers. A
/// segment's data is the file slice `p_offset .. p_offset + p_filesz`, or an error
/// when that range is not inside the file (`ElfBytes::segment_data`,
/// `ProgramHeader::get_file_data_range`).
#[verifier::external_body]
fn parse_elf(bytes: &[u8]) -> (r: Result<ElfImage, elf::ParseError>)
    ensures
        match r {
            Ok(img) => elf_image_of(bytes@) == Some(img@),
            Err(_) => elf_image_of(bytes@) is None,
        },
        r matches Ok(img) ==> segments_from_file(bytes@, img@.segments),
{
    let elf = ElfBytes::<LittleEndian>::minimal_parse(bytes)?;
    let segments = elf.segments().map(|t| t.iter().map(|p|
        ProgramSegment::new(p.p_type, p.p_offset, p.p_vaddr, p.p_filesz,
            elf.segment_data(&p).map(<[u8]>::to_vec).ok())).collect()).unwrap_or_default();
    let sections = elf.section_headers().map(|t| t.iter().map(|s|
        SectionEntry::new(s.sh_type, s.sh_info, s.sh_offset, s.sh_size,
            elf.section_data_as_relas(&s).map(Iterator::count).ok())).collect()).unwrap_or_default();
    Ok(ElfImage::new(elf.ehdr.e_type, elf.ehdr.e_machine, elf.ehdr.e_entry, segments, sections))
}

impl ProgramSegment {
    pub fn new(p_type: u32, p_offset: u64, p_vaddr: u64, p_filesz: u64, data: Option<Vec<u8>>) -> (r:
        ProgramSegment)
        ensures
            r.p_type == p_type,
            r.p_offset == p_offset,
            r.p_vaddr == p_vaddr,
            r.p_filesz == p_filesz,
            r.data == data,
    {
        ProgramSegment { p_type, p_offset, p_vaddr, p_filesz, data }
    }
}

impl SectionEntry {
    pub fn new(sh_type: u32, sh_info: u32, sh_offset: u64, sh_size: u64, rela_count: Option<usize>) -> (r:
        SectionEntry)
        ensures
            r == (SectionEntry { sh_type, sh_info, sh_offset, sh_size, rela_count }),
    {
        SectionEntry { sh_type, sh_info, sh_offset, sh_size, rela_count }
    }
}

impl ElfImage {
    pub fn new(
        e_type: u16,
        e_machine: u16,
        e_entry: u64,
        segments: Vec<ProgramSegment>,
        sections: Vec<SectionEntry>,
    ) -> (r: ElfImage)
        ensures
            r.e_type == e_type,
            r.e_machine == e_machine,
            r.e_entry == e_entry,
            r.segments == segments,
            r.sections == sections,
    {
        ElfImage { e_type, e_machine, e_entry, segments, sections }
    }

    /// Parses ELF bytes; `Malformed` when the parser rejects them.
    pub fn parse(bytes: &[u8]) -> (r: Result<ElfImage, ImageError>)
        ensures
            match r {
                Ok(img) => elf_image_of(bytes@) == Some(img@) && segments_from_file(
                    bytes@,
                    img@.segments,
                ),
                Err(e) => elf_image_of(bytes@) is None && e == ImageError::Malformed,
            },
    {
        match parse_elf(bytes) {
            Ok(img) => Ok(img),
            Err(_) => Err(ImageError::Malformed),
        }
    }
}

/// The RAM offset at which a segment's data goes: load offset plus virtual
/// address, relative to the RAM base.
pub open spec fn segment_dest(s: SegmentView) -> int {
    LOAD_OFFSET + s.p_vaddr - RAM_BASE
}

/// `ram` with `d` written from offset `off` on.
pub open spec fn place(ram: Seq<u8>, off: int, d: Seq<u8>) -> Seq<u8> {
    ram.subrange(0, off) + d + ram.subrange(off + d.len(), ram.len() as int)
}

/// RAM after copying the data of every loadable segment of `segs` in order into
/// zeroed RAM, or the failure at the first loadable segment whose data is missing
/// or whose destination is not in RAM or whose data does not fit. Other segments
/// are skipped.
pub open spec fn load_segments(segs: Seq<SegmentView>) -> Result<Seq<u8>, ImageError>
    decreases segs.len(),
{
    if segs.len() == 0 {
        Ok(Seq::new(RAM_SIZE as nat, |i: int| 0u8))
    } else {
        match load_segments(segs.drop_last()) {
            Err(e) => Err(e),
            Ok(ram) => {
                let s = segs.last();
                let idx = (segs.len() - 1) as usize;
                if s.p_type != PT_LOAD {
                    Ok(ram)
                } else {
                    match s.data {
                        None => Err(ImageError::SegmentData(idx)),
                        Some(d) => if 0 <= segment_dest(s) < RAM_SIZE && segment_dest(s) + d.len()
                            <= RAM_SIZE {
                            Ok(place(ram, segment_dest(s), d))
                        } else {
                            Err(ImageError::SegmentOutsideRam(idx))
                        },
                    }
                }
            },
        }
    }
}

/// The machine that an ELF image starts as: an executable for RISC-V whose
/// loadable segments are in RAM and whose entry address (plus the load offset)
/// lies in RAM; registers zero, no status yet.
pub open spec fn elf_machine(img: ElfView) -> Result<Machine, ImageError> {
    if img.e_type != ET_EXEC {
        Err(ImageError::NotExecutable(img.e_type))
    } else if img.e_machine != EM_RISCV {
        Err(ImageError::WrongMachine(img.e_machine))
    } else {
        match load_segments(img.segments) {
            Err(e) => Err(e),
            Ok(ram) => {
                let entry = LOAD_OFFSET + img.e_entry;
                if RAM_BASE <= entry < RAM_BASE + RAM_SIZE {
                    Ok(
                        Machine {
                            pc: entry as u32,
                            regs: Seq::new(32, |i: int| 0u32),
                            ram_base: RAM_BASE,
                            ram,
                            debug_base: DEBUG_BASE,
                            status: None,
                        },
                    )
                } else {
                    Err(ImageError::EntryNotMapped(img.e_entry))
                }
            },
        }
    }
}

/// What loading ELF bytes yields.
pub open spec fn elf_load(bytes: Seq<u8>) -> Result<Machine, ImageError> {
    match elf_image_of(bytes) {
        None => Err(ImageError::Malformed),
        Some(img) => elf_machine(img),
    }
}

/// Once loading a prefix of the segments fails, loading all of them fails the
/// same way.
proof fn lemma_load_error_persists(segs: Seq<SegmentView>, j: int)
    requires
        0 <= j <= segs.len(),
        load_segments(segs.take(j)) is Err,
    ensures
        load_segments(segs) == load_segments(segs.take(j)),
    decreases segs.len() - j,
{
    if j < segs.len() {
        assert(segs.take(j + 1).drop_last() =~= segs.take(j));
        lemma_load_error_persists(segs, j + 1);
    } else {
        assert(segs.take(j) =~= segs);
    }
}

/// Copies every loadable segment into a zeroed RAM at `RAM_BASE`.
pub(crate) fn load_segments_into(ram: &mut Ram, segments: &Vec<ProgramSegment>) -> (r: Result<
    (),
    ImageError,
>)
    requires
        old(ram).wf(),
        old(ram).base == RAM_BASE,
        old(ram).data@ == Seq::new(RAM_SIZE as nat, |i: int| 0u8),
    ensures
        final(ram).wf(),
        final(ram).base == RAM_BASE,
        match load_segments(segments@.map_values(|s: ProgramSegment| s@)) {
            Ok(data) => r is Ok && final(ram).data@ == data,
            Err(e) => r == Err::<(), ImageError>(e),
        },
{
    let ghost segs = segments@.map_values(|s: ProgramSegment| s@);
    let mut k: usize = 0;
    assert(segs.take(0) =~= Seq::<SegmentView>::empty());
    while k < segments.len()
        invariant
            k <= segments@.len(),
            segs == segments@.map_values(|s: ProgramSegment| s@),
            ram.base == RAM_BASE,
            ram.wf(),
            ram.data@.len() == RAM_SIZE,
            load_segments(segs.take(k as int)) == Ok::<Seq<u8>, ImageError>(ram.data@),
        decreases segments@.len() - k,
    {
        let seg = &segments[k];
        assert(segs.take(k + 1).drop_last() =~= segs.take(k as int));
        assert(segs.take(k + 1).last() == seg@);
        if seg.p_type == PT_LOAD {
            match &seg.data {
                None => {
                    proof {
                        lemma_load_error_persists(segs, k as int + 1);
                    }
                    return Err(ImageError::SegmentData(k));
                },
                Some(d) => {
                    if seg.p_vaddr >= RAM_SIZE as u64 || d.len() as u64 > RAM_SIZE as u64
                        - seg.p_vaddr {
                        proof {
                            lemma_load_error_persists(segs, k as int + 1);
                        }
                        return Err(ImageError::SegmentOutsideRam(k));
                    }
                    ram.copy_in(seg.p_vaddr as usize, d.as_slice());
                },
            }
        }
        k += 1;
    }
    assert(segs.take(k as int) =~= segs);
    Ok(())
}

/// A relocation section whose target section lies inside a loaded segment. The
/// relocations are counted, never applied.
#[derive(Debug, Clone, Copy, PartialEq, Eq, Structural)]
pub struct RelocationNote {
    /// Index of the relocation section.
    pub section: usize,
    /// Index of the section that its entries patch.
    pub target: usize,
    /// Number of relocation entries.
    pub count: usize,
}

/// Whether a section's file range `[sh_offset, sh_offset + sh_size)` lies within
/// the file range `[offset, offset + size)`.
pub open spec fn section_within(sec: SectionEntry, range: (u64, u64)) -> bool {
    sec.sh_offset >= range.0 && sec.sh_offset + sec.sh_size <= range.0 + range.1
}

pub open spec fn section_in_loaded(sec: SectionEntry, loaded: Seq<(u64, u64)>) -> bool {
    exists|i: int| 0 <= i < loaded.len() && section_within(sec, #[trigger] loaded[i])
}

/// The file ranges `(p_offset, p_filesz)` of the loadable segments, in order.
pub open spec fn loaded_ranges(segs: Seq<SegmentView>) -> Seq<(u64, u64)>
    decreases segs.len(),
{
    if segs.len() == 0 {
        Seq::empty()
    } else {
        let rest = loaded_ranges(segs.drop_last());
        if segs.last().p_type == PT_LOAD {
            rest.push((segs.last().p_offset, segs.last().p_filesz))
        } else {
            rest
        }
    }
}

/// The note for section `k`, if it is a readable relocation section whose target
/// section lies in a loaded range.
pub open spec fn note_of(v: ElfView, loaded: Seq<(u64, u64)>, k: int) -> Option<RelocationNote> {
    let sec = v.sections[k];
    if sec.sh_type == SHT_RELA && sec.sh_info < v.sections.len() && section_in_loaded(
        v.sections[sec.sh_info as int],
        loaded,
    ) && sec.rela_count is Some {
        Some(RelocationNote { section: k as usize, target: sec.sh_info as usize, count: sec.rela_count.unwrap() })
    } else {
        None
    }
}

/// The notes for the first `n` sections, in section order.
pub open spec fn relocation_notes(v: ElfView, loaded: Seq<(u64, u64)>, n: int) -> Seq<RelocationNote>
    decreases n,
{
    if n <= 0 {
        Seq::empty()
    } else {
        let rest = relocation_notes(v, loaded, n - 1);
        match note_of(v, loaded, n - 1) {
            Some(note) => rest.push(note),
            None => rest,
        }
    }
}

/// Whether a section lies within one of the loaded segments' file ranges.
pub fn is_section_in_loaded_segments(
    associated_header: &SectionEntry,
    loaded_segments: &[(u64, u64)],
) -> (r: bool)
    ensures
        r == section_in_loaded(*associated_header, loaded_segments@),
{
    let mut i: usize = 0;
    while i < loaded_segments.len()
        invariant
            i <= loaded_segments@.len(),
            forall|j: int| 0 <= j < i ==> !section_within(*associated_header, #[trigger] loaded_segments@[j]),
        decreases loaded_segments@.len() - i,
    {
        let (seg_p_offset, seg_p_filesz) = loaded_segments[i];
        if associated_header.sh_offset >= seg_p_offset && associated_header.sh_size <= seg_p_filesz
            && associated_header.sh_offset - seg_p_offset <= seg_p_filesz - associated_header.sh_size {
            assert(section_within(*associated_header, loaded_segments@[i as int]));
            return true;
        }
        i += 1;
    }
    false
}

impl ElfImage {
    /// The relocation sections that patch loaded data, with their entry counts.
    pub fn relocation_report(&self) -> (r: Vec<RelocationNote>)
        ensures
            r@ == relocation_notes(self@, loaded_ranges(self@.segments), self@.sections.len() as int),
    {
        let ghost segs = self@.segments;
        let mut loaded: Vec<(u64, u64)> = Vec::new();
        let mut k: usize = 0;
        assert(segs.take(0) =~= Seq::<SegmentView>::empty());
        while k < self.segments.len()
            invariant
                k <= self.segments@.len(),
                segs == self@.segments,
                loaded@ == loaded_ranges(segs.take(k as int)),
            decreases self.segments@.len() - k,
        {
            assert(segs.take(k + 1).drop_last() =~= segs.take(k as int));
            let seg = &self.segments[k];
            if seg.p_type == PT_LOAD {
                loaded.push((seg.p_offset, seg.p_filesz));
            }
            k += 1;
        }
        assert(segs.take(k as int) =~= segs);
        let ghost v = self@;
        let mut notes: Vec<RelocationNote> = Vec::new();
        let mut n: usize = 0;
        while n < self.sections.len()
            invariant
                n <= self.sections@.len(),
                v == self@,
                loaded@ == loaded_ranges(segs),
                notes@ == relocation_notes(v, loaded@, n as int),
            decreases self.sections@.len() - n,
        {
            let sec = self.sections[n];
            if sec.sh_type == SHT_RELA && (sec.sh_info as usize) < self.sections.len() {
                let target = self.sections[sec.sh_info as usize];
                if is_section_in_loaded_segments(&target, loaded.as_slice()) {
                    if let Some(count) = sec.rela_count {
                        notes.push(RelocationNote { section: n, target: sec.sh_info as usize, count });
                    }
                }
            }
            n += 1;
        }
        notes
    }
}

} // verus!
