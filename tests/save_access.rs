use gba::chip::SaveChip;
use gba::error::Error;
use gba::media::MediaType;
use gba::protocol::{raw_erase_sector, raw_program, raw_read};
use gba::save::{SaveAccess, SaveConfig};
use gba::timeout::TimedWait;

const ALL_MEDIA: [MediaType; 5] = [
    MediaType::Sram,
    MediaType::Flash64K,
    MediaType::Flash128K,
    MediaType::Eeprom512,
    MediaType::Eeprom8K,
];

fn configured(media: MediaType) -> (SaveAccess, SaveChip) {
    let mut config = SaveConfig::new();
    config.select(media);
    (SaveAccess::new(&config).unwrap(), SaveChip::new(media))
}

#[derive(Clone)]
struct Rng(u32);

impl Rng {
    fn iter(&mut self) {
        self.0 = self.0.wrapping_mul(2891336453).wrapping_add(100001);
    }
    fn next_u8(&mut self) -> u8 {
        self.iter();
        (self.0 >> 22) as u8 ^ self.0 as u8
    }
}

#[test]
fn new_without_configuration_is_unconfigured() {
    let config = SaveConfig::new();
    assert_eq!(config.media(), None);
    assert!(matches!(SaveAccess::new(&config), Err(Error::Unconfigured)));
}

#[test]
fn first_selection_stands() {
    let mut config = SaveConfig::new();
    config.select(MediaType::Flash64K);
    config.select(MediaType::Sram);
    assert_eq!(config.media(), Some(MediaType::Flash64K));
    let access = SaveAccess::new(&config).unwrap();
    assert_eq!(access.len(), 65536);
}

#[test]
fn access_len_and_info_follow_configuration() {
    let expected = [32768usize, 65536, 131072, 512, 8192];
    for (media, len) in ALL_MEDIA.iter().zip(expected.iter()) {
        let (access, _) = configured(*media);
        assert_eq!(access.len(), *len);
        let info = access.media_info();
        assert_eq!(info.media_type, *media);
        assert_eq!(info.total_size_bytes, *len);
    }
    let (access, _) = configured(MediaType::Flash128K);
    assert_eq!(access.len(), 131072);
}

fn round_trip(media: MediaType, offset: usize, data: &[u8]) {
    let (mut access, mut chip) = configured(media);
    access.prepare_write(&mut chip, offset, offset + data.len()).unwrap();
    access.write(&mut chip, offset, data).unwrap();
    let mut buf = vec![0x5Au8; data.len()];
    access.read(&mut chip, offset, &mut buf).unwrap();
    assert_eq!(&buf[..], data);
}

#[test]
fn round_trip_on_every_media() {
    let mixed: Vec<u8> = (0..300u32).map(|i| (i * 37 % 256) as u8).collect();
    for media in ALL_MEDIA.iter() {
        round_trip(*media, 0, &[0x00; 64]);
        round_trip(*media, 3, &[0xFF; 64]);
        round_trip(*media, 5, &mixed);
        round_trip(*media, media.len() - 300, &mixed);
        round_trip(*media, 17, &[]);
    }
}

#[test]
fn round_trip_across_flash_bank_boundary() {
    let data: Vec<u8> = (0..400u32).map(|i| (i % 251) as u8).collect();
    round_trip(MediaType::Flash128K, 65536 - 200, &data);
}

#[test]
fn prepare_twice_erases_once() {
    let (mut access, mut chip) = configured(MediaType::Flash64K);
    access.prepare_write(&mut chip, 100, 8000).unwrap();
    assert_eq!(chip.erase_count(), 2);
    access.prepare_write(&mut chip, 100, 8000).unwrap();
    assert_eq!(chip.erase_count(), 2);
    access.prepare_write(&mut chip, 4096, 4200).unwrap();
    assert_eq!(chip.erase_count(), 2);
    access.prepare_write(&mut chip, 8000, 8200).unwrap();
    assert_eq!(chip.erase_count(), 3);
    access.write(&mut chip, 100, &[1, 2, 3]).unwrap();
    let mut buf = [0u8; 3];
    access.read(&mut chip, 100, &mut buf).unwrap();
    assert_eq!(buf, [1, 2, 3]);
}

#[test]
fn written_sector_is_erased_again_by_the_next_prepare() {
    let (mut access, mut chip) = configured(MediaType::Flash64K);
    access.prepare_write(&mut chip, 0, 16).unwrap();
    access.write(&mut chip, 0, &[0x00; 16]).unwrap();
    access.prepare_write(&mut chip, 0, 16).unwrap();
    assert_eq!(chip.erase_count(), 2);
    access.write(&mut chip, 0, &[0xA5; 16]).unwrap();
    let mut buf = [0u8; 16];
    access.read(&mut chip, 0, &mut buf).unwrap();
    assert_eq!(buf, [0xA5; 16]);
}

#[test]
fn sram_and_eeprom_never_erase() {
    for media in [MediaType::Sram, MediaType::Eeprom512, MediaType::Eeprom8K].iter() {
        let (mut access, mut chip) = configured(*media);
        access.prepare_write(&mut chip, 0, media.len()).unwrap();
        assert_eq!(chip.erase_count(), 0);
    }
}

#[test]
fn out_of_bounds_fails_without_touching_the_chip() {
    for media in ALL_MEDIA.iter() {
        let (mut access, mut chip) = configured(*media);
        let len = media.len();
        assert_eq!(access.prepare_write(&mut chip, 0, len + 1), Err(Error::OutOfBounds));
        assert_eq!(access.prepare_write(&mut chip, 10, 5), Err(Error::OutOfBounds));
        assert_eq!(access.write(&mut chip, len - 2, &[0, 0, 0]), Err(Error::OutOfBounds));
        assert_eq!(access.write(&mut chip, usize::MAX, &[0]), Err(Error::OutOfBounds));
        let mut buf = [7u8; 4];
        assert_eq!(access.read(&mut chip, len - 3, &mut buf), Err(Error::OutOfBounds));
        assert_eq!(buf, [7u8; 4]);
        assert_eq!(chip.erase_count(), 0);
        assert_eq!(chip.poll_count(), 0);
        let mut all = vec![0u8; len];
        access.read(&mut chip, 0, &mut all).unwrap();
        assert!(all.iter().all(|b| *b == 0xFF));
    }
}

#[test]
fn full_range_is_in_bounds() {
    let (mut access, mut chip) = configured(MediaType::Eeprom512);
    let data = vec![0x3Cu8; 512];
    access.prepare_write(&mut chip, 0, 512).unwrap();
    access.write(&mut chip, 0, &data).unwrap();
    let mut buf = vec![0u8; 512];
    access.read(&mut chip, 0, &mut buf).unwrap();
    assert_eq!(buf, data);
}

#[test]
fn held_medium_is_busy() {
    let (mut access, mut chip) = configured(MediaType::Flash64K);
    chip.set_held(true);
    assert_eq!(access.prepare_write(&mut chip, 0, 10), Err(Error::Busy));
    assert_eq!(access.write(&mut chip, 0, &[1]), Err(Error::Busy));
    let mut buf = [0u8; 1];
    assert_eq!(access.read(&mut chip, 0, &mut buf), Err(Error::Busy));
    assert_eq!(chip.erase_count(), 0);
    chip.set_held(false);
    assert_eq!(access.prepare_write(&mut chip, 0, 10), Ok(()));
}

#[test]
fn stuck_flash_erase_times_out_after_bound() {
    let mut chip = SaveChip::new(MediaType::Flash64K);
    chip.set_stuck(true);
    assert_eq!(raw_erase_sector(&mut chip, 3), Err(Error::Timeout));
    assert_eq!(chip.poll_count(), 4096);
}

#[test]
fn stuck_flash_program_times_out_after_bound() {
    let mut chip = SaveChip::new(MediaType::Flash128K);
    chip.set_stuck(true);
    assert_eq!(raw_program(&mut chip, 70000, &[1, 2, 3, 4]), Err(Error::Timeout));
    assert_eq!(chip.poll_count(), 4096);
}

#[test]
fn stuck_eeprom_read_and_write_time_out_after_bound() {
    let mut chip = SaveChip::new(MediaType::Eeprom8K);
    chip.set_stuck(true);
    let mut buf = [0u8; 20];
    assert_eq!(raw_read(&mut chip, 4, &mut buf), Err(Error::Timeout));
    assert_eq!(chip.poll_count(), 1024);
    assert_eq!(raw_program(&mut chip, 4, &[9; 20]), Err(Error::Timeout));
    assert_eq!(chip.poll_count(), 2048);
}

#[test]
fn stuck_chip_through_the_facade() {
    let (mut access, mut chip) = configured(MediaType::Flash64K);
    chip.set_stuck(true);
    assert_eq!(access.prepare_write(&mut chip, 0, 1), Err(Error::Timeout));
    assert_eq!(access.write(&mut chip, 0, &[0]), Err(Error::Timeout));
    let mut buf = [0u8; 8];
    assert_eq!(access.read(&mut chip, 0, &mut buf), Ok(()));
}

#[test]
fn latency_within_bound_completes() {
    let (mut access, mut chip) = configured(MediaType::Flash64K);
    chip.set_latency(4095);
    access.prepare_write(&mut chip, 0, 10).unwrap();
    assert_eq!(chip.poll_count(), 4096);
    access.write(&mut chip, 0, &[0x12]).unwrap();
    let mut chip = SaveChip::new(MediaType::Flash64K);
    chip.set_latency(4096);
    assert_eq!(raw_erase_sector(&mut chip, 0), Err(Error::Timeout));
    assert_eq!(chip.poll_count(), 4096);
}

#[test]
fn sram_ignores_timing() {
    let (mut access, mut chip) = configured(MediaType::Sram);
    chip.set_stuck(true);
    access.write(&mut chip, 10, &[1, 2]).unwrap();
    let mut buf = [0u8; 2];
    access.read(&mut chip, 10, &mut buf).unwrap();
    assert_eq!(buf, [1, 2]);
}

#[test]
fn unerased_flash_write_fails_verification() {
    let (mut access, mut chip) = configured(MediaType::Flash64K);
    access.prepare_write(&mut chip, 0, 4).unwrap();
    access.write(&mut chip, 0, &[0x0F; 4]).unwrap();
    assert_eq!(access.write(&mut chip, 0, &[0xF0; 4]), Err(Error::VerifyFailed));
    let mut buf = [0u8; 4];
    access.read(&mut chip, 0, &mut buf).unwrap();
    assert_eq!(buf, [0x00; 4]);
}

#[test]
fn worn_flash_fails_verification() {
    let (mut access, mut chip) = configured(MediaType::Flash128K);
    chip.set_worn(true);
    access.prepare_write(&mut chip, 0, 2).unwrap();
    assert_eq!(access.write(&mut chip, 0, &[1, 2]), Err(Error::VerifyFailed));
    assert_eq!(access.write(&mut chip, 0, &[0xFF, 0xFF]), Ok(()));
}

#[test]
fn eeprom_partial_words_keep_their_neighbours() {
    let (mut access, mut chip) = configured(MediaType::Eeprom512);
    access.write(&mut chip, 0, &[1, 2, 3, 4, 5, 6, 7, 8, 9, 10, 11, 12, 13, 14, 15, 16]).unwrap();
    access.write(&mut chip, 5, &[0xAA, 0xBB, 0xCC, 0xDD]).unwrap();
    let mut buf = [0u8; 16];
    access.read(&mut chip, 0, &mut buf).unwrap();
    assert_eq!(buf, [1, 2, 3, 4, 5, 0xAA, 0xBB, 0xCC, 0xDD, 10, 11, 12, 13, 14, 15, 16]);
}

#[test]
fn raw_erase_sector_range() {
    let mut chip = SaveChip::new(MediaType::Flash64K);
    assert_eq!(raw_erase_sector(&mut chip, 16), Err(Error::OutOfBounds));
    assert_eq!(chip.erase_count(), 0);
    assert_eq!(raw_erase_sector(&mut chip, 15), Ok(()));
    assert_eq!(chip.erase_count(), 1);
    let mut chip = SaveChip::new(MediaType::Flash128K);
    assert_eq!(raw_erase_sector(&mut chip, 31), Ok(()));
    assert_eq!(chip.bank(), 1);
    let mut chip = SaveChip::new(MediaType::Sram);
    assert_eq!(raw_erase_sector(&mut chip, 99), Ok(()));
    assert_eq!(chip.erase_count(), 0);
}

#[test]
fn raw_erase_sector_clears_only_its_sector() {
    let mut chip = SaveChip::new(MediaType::Flash128K);
    raw_program(&mut chip, 4095, &[0, 0, 0]).unwrap();
    raw_program(&mut chip, 69631, &[0, 0]).unwrap();
    raw_erase_sector(&mut chip, 1).unwrap();
    let mut buf = [0u8; 3];
    raw_read(&mut chip, 4095, &mut buf).unwrap();
    assert_eq!(buf, [0x00, 0xFF, 0xFF]);
    let mut buf = [0u8; 2];
    raw_read(&mut chip, 69631, &mut buf).unwrap();
    assert_eq!(buf, [0x00, 0x00]);
}

#[test]
fn timed_wait_counts_down() {
    let mut wait = TimedWait::start(2);
    assert!(!wait.elapsed());
    wait.tick();
    assert!(!wait.elapsed());
    wait.tick();
    assert!(wait.elapsed());
    assert!(TimedWait::start(0).elapsed());
}

fn full_write_then_validate(seed: u32, write_chunk: usize, read_chunk: usize) {
    let (mut access, mut chip) = configured(MediaType::Flash64K);
    assert_eq!(access.len(), 65536);
    assert_eq!(access.media_info().sector_size_bytes, 4096);
    access.prepare_write(&mut chip, 0, 65536).unwrap();
    let mut rng = Rng(seed);
    let mut current = 0;
    while current != 65536 {
        let len = std::cmp::min(65536 - current, write_chunk);
        let chunk: Vec<u8> = (0..len).map(|_| rng.next_u8()).collect();
        access.write(&mut chip, current, &chunk).unwrap();
        current += len;
    }
    let mut rng = Rng(seed);
    let mut current = 0;
    let mut buf = vec![0u8; read_chunk];
    while current != 65536 {
        let len = std::cmp::min(65536 - current, read_chunk);
        access.read(&mut chip, current, &mut buf[..len]).unwrap();
        for b in &buf[..len] {
            assert_eq!(*b, rng.next_u8());
        }
        current += len;
    }
}

#[test]
fn flash64k_full_write_in_512_byte_chunks_reads_back() {
    full_write_then_validate(1000, 512, 4096);
}
