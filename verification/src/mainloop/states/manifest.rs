//! Manifest writing state: after the download, record where the ISO lies,
//! either in a FAT32 file on the ESP or in a raw sector.

use crate::mainloop::serial::{crlf_bytes, decimal_bytes, hex64_text, print, print_hex, print_u32};
use crate::text::utf8_text;
use vstd::prelude::*;
use vstd::slice::slice_subrange;
use vstd::string::StringSliceAdditionalSpecFns;
use vstd::utf8::valid_utf8;

verus! {

/// Max ISO name length we store.
pub const MAX_ISO_NAME_LEN: usize = 128;

/// Manifest write mode.
#[derive(Debug, Clone, Copy, PartialEq, Eq, Structural)]
pub enum ManifestMode {
    /// Write to FAT32 ESP filesystem
    Fat32 { esp_start_lba: u64 },
    /// Write to raw disk sector
    RawSector { sector: u64 },
    /// Skip manifest writing
    Skip,
}

/// The mode chosen from the configured ESP start and manifest sector: FAT32
/// when an ESP is given, else a raw sector when one is given, else skip.
pub open spec fn mode_for(esp_start_lba: u64, manifest_sector: u64) -> ManifestMode {
    if esp_start_lba > 0 {
        ManifestMode::Fat32 { esp_start_lba }
    } else if manifest_sector > 0 {
        ManifestMode::RawSector { sector: manifest_sector }
    } else {
        ManifestMode::Skip
    }
}

/// Choose the manifest mode; see `mode_for`.
pub fn manifest_mode(esp_start_lba: u64, manifest_sector: u64) -> (r: ManifestMode)
    ensures
        r == mode_for(esp_start_lba, manifest_sector),
{
    if esp_start_lba > 0 {
        ManifestMode::Fat32 { esp_start_lba }
    } else if manifest_sector > 0 {
        ManifestMode::RawSector { sector: manifest_sector }
    } else {
        ManifestMode::Skip
    }
}

/// End sector (exclusive) of an ISO of `iso_size` bytes starting at
/// `start_sector`.
pub fn iso_end_sector(start_sector: u64, iso_size: u64) -> (r: u64)
    requires
        iso_size + 511 <= u64::MAX,
        start_sector + (iso_size + 511) / 512 <= u64::MAX,
    ensures
        r == start_sector + (iso_size + 511) / 512,
{
    start_sector + (iso_size + 511) / 512
}

/// Configuration for manifest writing.
#[derive(Debug, Clone)]
pub struct ManifestConfig {
    /// ISO name stored inline
    pub iso_name_buf: [u8; 128],
    /// ISO name length
    pub iso_name_len: usize,
    /// Total ISO size in bytes
    pub iso_size: u64,
    /// Start sector where ISO data begins
    pub start_sector: u64,
    /// End sector (exclusive)
    pub end_sector: u64,
    /// Partition UUID (16 bytes)
    pub partition_uuid: [u8; 16],
    /// Write mode
    pub mode: ManifestMode,
}

/// The stored name: the first 128 bytes of the given name, zero-padded.
pub open spec fn name_buffer(name: Seq<u8>) -> Seq<u8> {
    let n = if name.len() < 128 {
        name.len() as int
    } else {
        128
    };
    name.take(n) + Seq::new((128 - n) as nat, |i: int| 0u8)
}

impl ManifestConfig {
    /// Name length within the buffer.
    pub open spec fn wf(&self) -> bool {
        self.iso_name_len <= MAX_ISO_NAME_LEN
    }

    /// Get ISO name: the stored bytes as text, or "unknown" if they are not
    /// valid UTF-8 (a name cut inside a character).
    pub fn iso_name(&self) -> (r: &str)
        requires
            self.wf(),
        ensures
            valid_utf8(self.iso_name_buf@.take(self.iso_name_len as int)) ==> r.spec_bytes()
                == self.iso_name_buf@.take(self.iso_name_len as int),
            !valid_utf8(self.iso_name_buf@.take(self.iso_name_len as int)) ==> r@ == "unknown"@,
    {
        let bytes = slice_subrange(self.iso_name_buf.as_slice(), 0, self.iso_name_len);
        assert(bytes@ =~= self.iso_name_buf@.take(self.iso_name_len as int));
        match utf8_text(bytes) {
            Some(t) => t,
            None => "unknown",
        }
    }

    /// Create config with the name copied (at most 128 bytes) into the
    /// buffer.
    pub fn new(
        iso_name: &str,
        iso_size: u64,
        start_sector: u64,
        end_sector: u64,
        partition_uuid: [u8; 16],
        mode: ManifestMode,
    ) -> (r: Self)
        ensures
            r.wf(),
            r.iso_name_buf@ == name_buffer(iso_name.spec_bytes()),
            r.iso_name_len == (if iso_name.spec_bytes().len() < 128 {
                iso_name.spec_bytes().len() as int
            } else {
                128
            }),
            r.iso_size == iso_size,
            r.start_sector == start_sector,
            r.end_sector == end_sector,
            r.partition_uuid == partition_uuid,
            r.mode == mode,
    {
        let bytes = iso_name.as_bytes();
        let len = if bytes.len() < MAX_ISO_NAME_LEN {
            bytes.len()
        } else {
            MAX_ISO_NAME_LEN
        };
        let mut iso_name_buf = [0u8; 128];
        let mut i: usize = 0;
        while i < 128
            invariant
                i <= 128,
                len <= 128,
                len <= bytes@.len(),
                bytes@ == iso_name.spec_bytes(),
                iso_name_buf@.len() == 128,
                forall|k: int| 0 <= k < i ==> #[trigger] iso_name_buf@[k] == (if k < len {
                    bytes@[k]
                } else {
                    0u8
                }),
                forall|k: int| i <= k < 128 ==> #[trigger] iso_name_buf@[k] == 0u8,
            decreases 128 - i,
        {
            if i < len {
                iso_name_buf[i] = bytes[i];
            }
            i += 1;
        }
        assert(iso_name_buf@ =~= name_buffer(iso_name.spec_bytes()));
        ManifestConfig { iso_name_buf, iso_name_len: len, iso_size, start_sector, end_sector, partition_uuid, mode }
    }

    /// Create config for FAT32 manifest.
    pub fn fat32(
        iso_name: &str,
        iso_size: u64,
        start_sector: u64,
        end_sector: u64,
        partition_uuid: [u8; 16],
        esp_start_lba: u64,
    ) -> (r: Self)
        ensures
            r.wf(),
            r.iso_name_buf@ == name_buffer(iso_name.spec_bytes()),
            r.iso_size == iso_size,
            r.start_sector == start_sector,
            r.end_sector == end_sector,
            r.partition_uuid == partition_uuid,
            r.mode == (ManifestMode::Fat32 { esp_start_lba }),
    {
        ManifestConfig::new(iso_name, iso_size, start_sector, end_sector, partition_uuid, ManifestMode::Fat32 { esp_start_lba })
    }

    /// Create config for raw sector manifest.
    pub fn raw_sector(
        iso_name: &str,
        iso_size: u64,
        start_sector: u64,
        end_sector: u64,
        partition_uuid: [u8; 16],
        manifest_sector: u64,
    ) -> (r: Self)
        ensures
            r.wf(),
            r.iso_name_buf@ == name_buffer(iso_name.spec_bytes()),
            r.iso_size == iso_size,
            r.start_sector == start_sector,
            r.end_sector == end_sector,
            r.partition_uuid == partition_uuid,
            r.mode == (ManifestMode::RawSector { sector: manifest_sector }),
    {
        ManifestConfig::new(
            iso_name,
            iso_size,
            start_sector,
            end_sector,
            partition_uuid,
            ManifestMode::RawSector { sector: manifest_sector },
        )
    }

    /// Create config to skip manifest writing.
    pub fn skip() -> (r: Self)
        ensures
            r.wf(),
            r.iso_name_len == 0,
            r.iso_name_buf@ == Seq::new(128, |i: int| 0u8),
            r.iso_size == 0,
            r.start_sector == 0,
            r.end_sector == 0,
            r.partition_uuid@ == Seq::new(16, |i: int| 0u8),
            r.mode == ManifestMode::Skip,
    {
        let r = ManifestConfig {
            iso_name_buf: [0u8; 128],
            iso_name_len: 0,
            iso_size: 0,
            start_sector: 0,
            end_sector: 0,
            partition_uuid: [0u8; 16],
            mode: ManifestMode::Skip,
        };
        assert(r.iso_name_buf@ =~= Seq::new(128, |i: int| 0u8));
        assert(r.partition_uuid@ =~= Seq::new(16, |i: int| 0u8));
        r
    }
}

/// What the manifest step decided.
#[derive(Debug, Clone, Copy, PartialEq, Eq, Structural)]
pub enum ManifestStep {
    /// Nothing to write.
    Skip,
    /// Write the manifest to a FAT32 file on the ESP at this LBA.
    WriteFat32 { esp_start_lba: u64 },
    /// Write the manifest to this raw sector.
    WriteRaw { sector: u64 },
    /// A write is needed but there is no block device: fail.
    NoBlockDevice,
    /// Stay for one more step.
    Wait,
    /// The manifest is written: done.
    ToDone,
}

/// Manifest writing state.
pub struct ManifestState {
    config: ManifestConfig,
    started: bool,
    completed: bool,
}

impl ManifestState {
    pub closed spec fn spec_config(&self) -> ManifestConfig {
        self.config
    }

    pub closed spec fn spec_started(&self) -> bool {
        self.started
    }

    pub closed spec fn spec_completed(&self) -> bool {
        self.completed
    }

    /// Create manifest state with configuration.
    pub fn new(config: ManifestConfig) -> (r: Self)
        ensures
            r.spec_config() == config,
            !r.spec_started(),
            !r.spec_completed(),
    {
        ManifestState { config, started: false, completed: false }
    }

    /// One step: once written, move on to done; on the first step, skip or
    /// write according to the mode (a write needs a block device).
    pub fn step(&mut self, has_block_device: bool) -> (r: ManifestStep)
        ensures
            final(self).spec_config() == old(self).spec_config(),
            old(self).spec_completed() ==> r == ManifestStep::ToDone && final(self).spec_completed(),
            !old(self).spec_completed() && old(self).spec_started() ==> r == ManifestStep::Wait,
            !old(self).spec_completed() && !old(self).spec_started() ==> final(self).spec_started() && r == (
            match old(self).spec_config().mode {
                ManifestMode::Skip => ManifestStep::Skip,
                ManifestMode::Fat32 { esp_start_lba } => if has_block_device {
                    ManifestStep::WriteFat32 { esp_start_lba }
                } else {
                    ManifestStep::NoBlockDevice
                },
                ManifestMode::RawSector { sector } => if has_block_device {
                    ManifestStep::WriteRaw { sector }
                } else {
                    ManifestStep::NoBlockDevice
                },
            }) && final(self).spec_completed() == (r == ManifestStep::Skip),
    {
        if self.completed {
            return ManifestStep::ToDone;
        }
        if self.started {
            return ManifestStep::Wait;
        }
        self.started = true;
        match self.config.mode {
            ManifestMode::Skip => {
                self.completed = true;
                ManifestStep::Skip
            },
            ManifestMode::Fat32 { esp_start_lba } => if has_block_device {
                ManifestStep::WriteFat32 { esp_start_lba }
            } else {
                ManifestStep::NoBlockDevice
            },
            ManifestMode::RawSector { sector } => if has_block_device {
                ManifestStep::WriteRaw { sector }
            } else {
                ManifestStep::NoBlockDevice
            },
        }
    }

    /// Record a successful manifest write.
    pub fn written(&mut self)
        ensures
            final(self).spec_config() == old(self).spec_config(),
            final(self).spec_started() == old(self).spec_started(),
            final(self).spec_completed(),
    {
        self.completed = true;
    }
}

/// The write a manifest needs outside the download's state machine: none
/// when skipping (which is logged), else the mode's target.
pub fn write_manifest_standalone(config: &ManifestConfig, out: &mut Vec<u8>) -> (r: ManifestStep)
    ensures
        r == match config.mode {
            ManifestMode::Skip => ManifestStep::Skip,
            ManifestMode::Fat32 { esp_start_lba } => ManifestStep::WriteFat32 { esp_start_lba },
            ManifestMode::RawSector { sector } => ManifestStep::WriteRaw { sector },
        },
        config.mode == ManifestMode::Skip ==> final(out)@ == old(out)@
            + "[MANIFEST] Skipping (not configured)".spec_bytes() + crlf_bytes(),
        config.mode != ManifestMode::Skip ==> final(out)@ == old(out)@,
{
    match config.mode {
        ManifestMode::Skip => {
            crate::mainloop::serial::println(out, "[MANIFEST] Skipping (not configured)");
            ManifestStep::Skip
        },
        ManifestMode::Fat32 { esp_start_lba } => ManifestStep::WriteFat32 { esp_start_lba },
        ManifestMode::RawSector { sector } => ManifestStep::WriteRaw { sector },
    }
}

/// The head of a manifest regeneration log: a banner, the ISO's name,
/// size in MiB and sector range.
pub open spec fn regenerate_header(iso_name: Seq<u8>, iso_size: u64, start_sector: u64, end_sector: u64) -> Seq<u8> {
    let rule = "=================================".spec_bytes() + crlf_bytes();
    rule + "  REGENERATING ISO MANIFEST      ".spec_bytes() + crlf_bytes() + rule
        + "[MANIFEST] ISO: ".spec_bytes() + iso_name + crlf_bytes()
        + "[MANIFEST] Size: ".spec_bytes() + decimal_bytes((iso_size / 1024 / 1024) as u32 as nat)
        + " MB".spec_bytes() + crlf_bytes()
        + "[MANIFEST] Sectors: ".spec_bytes() + hex64_text(start_sector) + " - ".spec_bytes()
        + hex64_text(end_sector) + crlf_bytes()
}

/// The log line of the chosen mode, or the error that none was given.
pub open spec fn mode_log(mode: ManifestMode) -> Seq<u8> {
    match mode {
        ManifestMode::Fat32 { esp_start_lba } => "[MANIFEST] Mode: FAT32 (ESP LBA ".spec_bytes()
            + decimal_bytes(esp_start_lba as u32 as nat) + ")".spec_bytes() + crlf_bytes(),
        ManifestMode::RawSector { sector } => "[MANIFEST] Mode: Raw sector ".spec_bytes() + hex64_text(sector)
            + crlf_bytes(),
        ManifestMode::Skip => "[MANIFEST] ERROR: No write mode specified".spec_bytes() + crlf_bytes(),
    }
}

fn log_regenerate_header(iso_name: &str, iso_size: u64, start_sector: u64, end_sector: u64, out: &mut Vec<u8>)
    ensures
        final(out)@ == old(out)@ + regenerate_header(iso_name.spec_bytes(), iso_size, start_sector, end_sector),
{
    crate::mainloop::serial::println(out, "=================================");
    crate::mainloop::serial::println(out, "  REGENERATING ISO MANIFEST      ");
    crate::mainloop::serial::println(out, "=================================");
    print(out, "[MANIFEST] ISO: ");
    crate::mainloop::serial::println(out, iso_name);
    print(out, "[MANIFEST] Size: ");
    print_u32(out, (iso_size / 1024 / 1024) as u32);
    crate::mainloop::serial::println(out, " MB");
    print(out, "[MANIFEST] Sectors: ");
    print_hex(out, start_sector);
    print(out, " - ");
    print_hex(out, end_sector);
    crate::mainloop::serial::println(out, "");
    proof {
        assert("".spec_bytes() =~= Seq::<u8>::empty()) by {
            reveal_strlit("");
        }
    }
    assert(out@ =~= old(out)@ + regenerate_header(iso_name.spec_bytes(), iso_size, start_sector, end_sector));
}

fn log_mode(mode: ManifestMode, out: &mut Vec<u8>)
    ensures
        final(out)@ == old(out)@ + mode_log(mode),
{
    match mode {
        ManifestMode::Fat32 { esp_start_lba } => {
            print(out, "[MANIFEST] Mode: FAT32 (ESP LBA ");
            print_u32(out, esp_start_lba as u32);
            crate::mainloop::serial::println(out, ")");
        },
        ManifestMode::RawSector { sector } => {
            print(out, "[MANIFEST] Mode: Raw sector ");
            print_hex(out, sector);
            crate::mainloop::serial::println(out, "");
            proof {
                assert("".spec_bytes() =~= Seq::<u8>::empty()) by {
                    reveal_strlit("");
                }
            }
        },
        ManifestMode::Skip => {
            crate::mainloop::serial::println(out, "[MANIFEST] ERROR: No write mode specified");
        },
    }
    assert(out@ =~= old(out)@ + mode_log(mode));
}

/// Prepare the manifest of an ISO already on disk: log what is
/// regenerated and build its configuration, in FAT32 mode when an ESP is
/// given, else in raw-sector mode when a sector is given; with neither
/// there is nothing to write (`None`).
pub fn regenerate_manifest(
    iso_name: &str,
    iso_size: u64,
    start_sector: u64,
    end_sector: u64,
    partition_uuid: [u8; 16],
    esp_start_lba: u64,
    manifest_sector: u64,
    out: &mut Vec<u8>,
) -> (r: Option<ManifestConfig>)
    ensures
        final(out)@ == old(out)@ + regenerate_header(iso_name.spec_bytes(), iso_size, start_sector, end_sector)
            + mode_log(mode_for(esp_start_lba, manifest_sector)),
        mode_for(esp_start_lba, manifest_sector) == ManifestMode::Skip ==> r is None,
        mode_for(esp_start_lba, manifest_sector) != ManifestMode::Skip ==> (r matches Some(c) && c.wf()
            && c.iso_name_buf@ == name_buffer(iso_name.spec_bytes()) && c.iso_size == iso_size
            && c.start_sector == start_sector && c.end_sector == end_sector && c.partition_uuid
            == partition_uuid && c.mode == mode_for(esp_start_lba, manifest_sector)),
{
    log_regenerate_header(iso_name, iso_size, start_sector, end_sector, out);
    let mode = manifest_mode(esp_start_lba, manifest_sector);
    log_mode(mode, out);
    match mode {
        ManifestMode::Skip => None,
        _ => Some(ManifestConfig::new(iso_name, iso_size, start_sector, end_sector, partition_uuid, mode)),
    }
}

} // verus!
