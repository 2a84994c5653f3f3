use vstd::prelude::*;

use crate::bytes::{AccessWidth, le_value, le_store, read_le, write_le};

verus! {

/// A BIOS image is always 512 KiB long.
pub const BIOS_SIZE: usize = 512 * 1024;

/// Region a console (and its BIOS) was sold for.
#[derive(Clone, Copy, Debug, PartialEq, Eq, Structural)]
pub enum Region {
    Japan,
    NorthAmerica,
    Europe,
}

/// One word written into the BIOS image.
#[derive(Clone, Copy, Debug, PartialEq, Eq, Structural)]
pub struct WordPatch {
    pub offset: u32,
    pub value: u32,
}

/// What is known of one BIOS release.
#[derive(Clone, Copy, Debug)]
pub struct Metadata {
    /// SHA-256 of the whole image.
    pub sha256: [u8; 32],
    pub version_major: u8,
    pub version_minor: u8,
    pub region: Region,
    /// Set for dumps known to be corrupted.
    pub known_bad: bool,
    /// Offset of the call to the boot animation code.
    pub animation_jump_hook: Option<u32>,
    /// Words that turn the debug UART output on.
    pub debug_uart_patch: Option<[WordPatch; 2]>,
}

/// A 4-byte write at `offset` falls inside the image.
pub open spec fn word_fits(offset: u32) -> bool {
    offset as int + 4 <= BIOS_SIZE
}

impl Metadata {
    /// Every patch location lies inside the image.
    pub open spec fn wf(self) -> bool {
        &&& (self.animation_jump_hook matches Some(h) ==> word_fits(h))
        &&& (self.debug_uart_patch matches Some(p) ==> word_fits(p[0].offset) && word_fits(
            p[1].offset,
        ))
    }

    /// Executable check of `wf`.
    pub fn is_valid(&self) -> (r: bool)
        ensures
            r == self.wf(),
    {
        let hook_ok = match self.animation_jump_hook {
            Some(h) => h <= (BIOS_SIZE - 4) as u32,
            None => true,
        };
        let patch_ok = match self.debug_uart_patch {
            Some(p) => p[0].offset <= (BIOS_SIZE - 4) as u32 && p[1].offset <= (BIOS_SIZE
                - 4) as u32,
            None => true,
        };
        hook_ok && patch_ok
    }
}

/// The byte at `i` of the placeholder image: the invalid instruction
/// `0x7badb105` smeared over the image.
pub open spec fn dummy_byte(i: int) -> u8 {
    ((0x7badb105u32 >> (((i % 4) * 2) as u32)) & 0xff) as u8
}

/// `m` is the metadata of the placeholder image.
pub open spec fn is_dummy_metadata(m: Metadata) -> bool {
    &&& forall|i: int| 0 <= i < 32 ==> m.sha256@[i] == 0xff
    &&& m.version_major == 0
    &&& m.version_minor == 0
    &&& m.region == Region::NorthAmerica
    &&& m.known_bad
    &&& m.animation_jump_hook is None
    &&& m.debug_uart_patch is None
}

/// The SHA-256 digest of `data`.
pub uninterp spec fn sha256_of(data: Seq<u8>) -> Seq<u8>;

/// Relies on `sha2::Sha256::digest`: the 32-byte SHA-256 digest of the
/// input, a function of the input alone.
#[verifier::external_body]
fn sha256(data: &Vec<u8>) -> (r: [u8; 32])
    ensures
        r@ == sha256_of(data@),
{
    <sha2::Sha256 as sha2::Digest>::digest(data.as_slice()).into()
}

/// Two digests hold the same bytes.
fn same_digest(a: &[u8; 32], b: &[u8; 32]) -> (r: bool)
    ensures
        r == (a@ == b@),
{
    let mut i: usize = 0;
    while i < 32
        invariant
            i <= 32,
            forall|j: int| 0 <= j < i ==> a@[j] == b@[j],
        decreases 32 - i,
    {
        if a[i] != b[i] {
            return false;
        }
        i = i + 1;
    }
    assert(a@ =~= b@);
    true
}

/// Index of the first entry of `db` whose digest is `sha256`.
pub open spec fn first_match(db: Seq<Metadata>, sha256: Seq<u8>) -> Option<int> {
    if exists|i: int| 0 <= i < db.len() && db[i].sha256@ == sha256 {
        let i = choose|i: int|
            0 <= i < db.len() && db[i].sha256@ == sha256 && forall|j: int|
                0 <= j < i ==> db[j].sha256@ != sha256;
        Some(i)
    } else {
        None
    }
}

/// Look up the entry of `db` with digest `sha256`; the first one wins.
pub fn lookup_sha256(db: &[Metadata], sha256: &[u8; 32]) -> (r: Option<Metadata>)
    ensures
        r is Some <==> exists|i: int| 0 <= i < db@.len() && db@[i].sha256@ == sha256@,
        r matches Some(m) ==> m.sha256@ == sha256@ && exists|i: int|
            0 <= i < db@.len() && db@[i] == m && forall|j: int|
                0 <= j < i ==> db@[j].sha256@ != sha256@,
{
    let mut i: usize = 0;
    while i < db.len()
        invariant
            i <= db@.len(),
            forall|j: int| 0 <= j < i ==> db@[j].sha256@ != sha256@,
        decreases db@.len() - i,
    {
        if same_digest(&db[i].sha256, sha256) {
            return Some(db[i]);
        }
        i = i + 1;
    }
    None
}

/// The digest of a BIOS image is unknown to the database.
#[derive(Clone, Copy, Debug, PartialEq, Eq, Structural)]
pub struct UnknownBiosChecksum;

/// A BIOS image and what the database knows of it.
pub struct Bios {
    data: Vec<u8>,
    metadata: Metadata,
}

impl Bios {
    pub closed spec fn data(&self) -> Seq<u8> {
        self.data@
    }

    pub closed spec fn spec_metadata(&self) -> Metadata {
        self.metadata
    }

    pub open spec fn wf(&self) -> bool {
        self.data().len() == BIOS_SIZE && self.spec_metadata().wf()
    }

    /// Build a BIOS from the image `binary`, identified by its SHA-256 in
    /// `db`. `None` when the image is not 512 KiB or its digest is not in
    /// the database.
    pub fn new(binary: Vec<u8>, db: &[Metadata]) -> (r: Option<Bios>)
        requires
            forall|i: int| 0 <= i < db@.len() ==> (#[trigger] db@[i]).wf(),
        ensures
            r is Some <==> binary@.len() == BIOS_SIZE && exists|i: int|
                0 <= i < db@.len() && db@[i].sha256@ == sha256_of(binary@),
            r matches Some(b) ==> b.wf() && b.data() == binary@ && b.spec_metadata().sha256@
                == sha256_of(binary@) && exists|i: int|
                0 <= i < db@.len() && db@[i] == b.spec_metadata() && forall|j: int|
                    0 <= j < i ==> db@[j].sha256@ != sha256_of(binary@),
    {
        if binary.len() != BIOS_SIZE {
            return None;
        }
        let digest = sha256(&binary);
        match lookup_sha256(db, &digest) {
            Some(metadata) => Some(Bios { data: binary, metadata }),
            None => None,
        }
    }

    /// A BIOS that will not boot: every word is the invalid instruction
    /// `0x7badb105` in a shifted pattern, with placeholder metadata.
    pub fn dummy() -> (r: Bios)
        ensures
            r.wf(),
            forall|i: int| 0 <= i < BIOS_SIZE ==> #[trigger] r.data()[i] == dummy_byte(i),
            is_dummy_metadata(r.spec_metadata()),
    {
        let mut data: Vec<u8> = Vec::with_capacity(BIOS_SIZE);
        let mut i: usize = 0;
        while i < BIOS_SIZE
            invariant
                i <= BIOS_SIZE,
                data@.len() == i,
                forall|j: int| 0 <= j < i ==> #[trigger] data@[j] == dummy_byte(j),
            decreases BIOS_SIZE - i,
        {
            data.push(((0x7badb105u32 >> (((i % 4) * 2) as u32)) & 0xff) as u8);
            i = i + 1;
        }
        let metadata = Metadata {
            sha256: [0xffu8; 32],
            version_major: 0,
            version_minor: 0,
            region: Region::NorthAmerica,
            known_bad: true,
            animation_jump_hook: None,
            debug_uart_patch: None,
        };
        Bios { data, metadata }
    }

    /// The placeholder image carrying the metadata of the release whose
    /// digest is `sha256`, for a saved state that names its BIOS by digest
    /// only. Fails when the digest is not in `db`.
    pub fn from_sha256(sha256: &[u8; 32], db: &[Metadata]) -> (r: Result<Bios, UnknownBiosChecksum>)
        requires
            forall|i: int| 0 <= i < db@.len() ==> (#[trigger] db@[i]).wf(),
        ensures
            r is Ok <==> exists|i: int| 0 <= i < db@.len() && db@[i].sha256@ == sha256@,
            r matches Ok(b) ==> b.wf() && b.spec_metadata().sha256@ == sha256@ && (forall|i: int|
                0 <= i < BIOS_SIZE ==> #[trigger] b.data()[i] == dummy_byte(i)) && exists|i: int|
                0 <= i < db@.len() && db@[i] == b.spec_metadata() && forall|j: int|
                    0 <= j < i ==> db@[j].sha256@ != sha256@,
    {
        match lookup_sha256(db, sha256) {
            Some(metadata) => {
                let mut bios = Bios::dummy();
                bios.metadata = metadata;
                Ok(bios)
            },
            None => Err(UnknownBiosChecksum),
        }
    }

    /// The digest that identifies this BIOS in a saved state.
    pub fn sha256(&self) -> (r: [u8; 32])
        ensures
            r == self.spec_metadata().sha256,
    {
        self.metadata.sha256
    }

    /// Remove the call to the boot animation by writing a NOP over it.
    /// `Err` when the release has no known hook.
    pub fn patch_boot_animation(&mut self) -> (r: Result<(), ()>)
        requires
            old(self).wf(),
        ensures
            final(self).wf(),
            final(self).spec_metadata() == old(self).spec_metadata(),
            r is Ok <==> old(self).spec_metadata().animation_jump_hook is Some,
            old(self).spec_metadata().animation_jump_hook matches Some(h) ==> final(self).data()
                == le_store(old(self).data(), h as int, 4, 0),
            old(self).spec_metadata().animation_jump_hook is None ==> final(self).data() == old(
                self,
            ).data(),
    {
        self.patch_animation_jump_hook(0)
    }

    /// Replace the call to the boot animation by `instruction`. `Err`
    /// when the release has no known hook.
    pub fn patch_animation_jump_hook(&mut self, instruction: u32) -> (r: Result<(), ()>)
        requires
            old(self).wf(),
        ensures
            final(self).wf(),
            final(self).spec_metadata() == old(self).spec_metadata(),
            r is Ok <==> old(self).spec_metadata().animation_jump_hook is Some,
            old(self).spec_metadata().animation_jump_hook matches Some(h) ==> final(self).data()
                == le_store(old(self).data(), h as int, 4, instruction),
            old(self).spec_metadata().animation_jump_hook is None ==> final(self).data() == old(
                self,
            ).data(),
    {
        match self.metadata.animation_jump_hook {
            Some(h) => {
                write_le(&mut self.data, h as usize, AccessWidth::Word, instruction);
                Ok(())
            },
            None => Err(()),
        }
    }

    /// Turn the debug UART output on. `Err` when the release has no known
    /// patch.
    pub fn enable_debug_uart(&mut self) -> (r: Result<(), ()>)
        requires
            old(self).wf(),
        ensures
            final(self).wf(),
            final(self).spec_metadata() == old(self).spec_metadata(),
            r is Ok <==> old(self).spec_metadata().debug_uart_patch is Some,
            old(self).spec_metadata().debug_uart_patch matches Some(p) ==> final(self).data()
                == le_store(
                le_store(old(self).data(), p[0].offset as int, 4, p[0].value),
                p[1].offset as int,
                4,
                p[1].value,
            ),
            old(self).spec_metadata().debug_uart_patch is None ==> final(self).data() == old(
                self,
            ).data(),
    {
        match self.metadata.debug_uart_patch {
            Some(p) => {
                write_le(&mut self.data, p[0].offset as usize, AccessWidth::Word, p[0].value);
                write_le(&mut self.data, p[1].offset as usize, AccessWidth::Word, p[1].value);
                Ok(())
            },
            None => Err(()),
        }
    }

    /// The little-endian value of `width` bytes at `offset`.
    pub fn load(&self, width: AccessWidth, offset: u32) -> (r: u32)
        requires
            self.wf(),
            offset + width.spec_size() <= BIOS_SIZE,
        ensures
            r == le_value(self.data(), offset as int, width.spec_size()),
    {
        read_le(&self.data, offset as usize, width)
    }

    /// What the database knows of this release.
    pub fn metadata(&self) -> (r: &Metadata)
        ensures
            *r == self.spec_metadata(),
    {
        &self.metadata
    }
}

} // verus!
