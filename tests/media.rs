use gba::media::MediaType;

#[test]
fn len_matches_capacity_of_every_media() {
    assert_eq!(MediaType::Sram.len(), 32768);
    assert_eq!(MediaType::Flash64K.len(), 65536);
    assert_eq!(MediaType::Flash128K.len(), 131072);
    assert_eq!(MediaType::Eeprom512.len(), 512);
    assert_eq!(MediaType::Eeprom8K.len(), 8192);
}

#[test]
fn only_flash_has_sectors() {
    assert_eq!(MediaType::Sram.sector_size(), 0);
    assert_eq!(MediaType::Flash64K.sector_size(), 4096);
    assert_eq!(MediaType::Flash128K.sector_size(), 4096);
    assert_eq!(MediaType::Eeprom512.sector_size(), 0);
    assert_eq!(MediaType::Eeprom8K.sector_size(), 0);
}

#[test]
fn info_describes_the_medium() {
    let info = MediaType::Flash128K.info();
    assert_eq!(info.media_type, MediaType::Flash128K);
    assert_eq!(info.total_size_bytes, 131072);
    assert_eq!(info.sector_size_bytes, 4096);
    let info = MediaType::Eeprom8K.info();
    assert_eq!(info.total_size_bytes, 8192);
    assert_eq!(info.sector_size_bytes, 0);
}

#[test]
fn timeout_bounds_per_media() {
    assert_eq!(MediaType::Flash64K.timeout_polls(), 4096);
    assert_eq!(MediaType::Eeprom512.timeout_polls(), 1024);
    assert!(MediaType::Flash128K.is_flash());
    assert!(!MediaType::Sram.is_flash());
    assert!(MediaType::Eeprom8K.is_eeprom());
}
