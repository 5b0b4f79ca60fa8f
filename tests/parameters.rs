use bakta_web_backend::config::{default_replicons, DermType, JobConfig, RepliconTableType};

#[test]
fn test_into_parameters() {
    let params = JobConfig {
        prodigal: Some("foo".to_string()),
        replicons: true,
        table: 4,
        complete: true,
        headers: true,
        min_length: 1,
        derm: Some(DermType::MONODERM),
        genus: Some("Bacillus".to_string()),
        species: Some("subtilis".to_string()),
        strain: Some("168".to_string()),
        plasmid: Some("pBS32".to_string()),
        locus: Some("BSU_00010".to_string()),
        locus_tag: Some("BSU00010".to_string()),
        compliant: true,
    };

    assert_eq!(
        params.into_parameters(),
        "--prodigal /data/prodigal.tf --replicons /data/replicons.tsv --complete --locus BSU_00010 --locus-tag BSU00010 --keep-contig-headers --genus Bacillus --species subtilis --strain 168 --plasmid pBS32 --compliant --translation-table 4 --gram +"
    );

    assert_eq!(JobConfig::default().into_parameters(), "--gram ?");
}

#[test]
fn complete_headers_monoderm_only() {
    let config = JobConfig {
        complete: true,
        headers: true,
        derm: Some(DermType::MONODERM),
        ..JobConfig::default()
    };
    assert_eq!(config.into_parameters(), "--complete --keep-contig-headers --gram +");
}

#[test]
fn envelope_flags() {
    let diderm = JobConfig { derm: Some(DermType::DIDERM), ..JobConfig::default() };
    assert_eq!(diderm.into_parameters(), "--gram -");
    let unknown = JobConfig { derm: Some(DermType::UNKNOWN), ..JobConfig::default() };
    assert_eq!(unknown.into_parameters(), "--gram ?");
}

#[test]
fn min_contig_length_written_in_decimal() {
    let config = JobConfig { min_length: 500, ..JobConfig::default() };
    assert_eq!(config.into_parameters(), "--min-contig-length 500 --gram ?");
    let largest = JobConfig { min_length: u64::MAX, ..JobConfig::default() };
    assert_eq!(largest.into_parameters(), "--min-contig-length 18446744073709551615 --gram ?");
    let two = JobConfig { min_length: 2, ..JobConfig::default() };
    assert_eq!(two.into_parameters(), "--min-contig-length 2 --gram ?");
}

#[test]
fn empty_values_are_left_out() {
    let config = JobConfig {
        genus: Some(String::new()),
        species: Some("coli".to_string()),
        locus: Some(String::new()),
        table: 11,
        replicons: true,
        ..JobConfig::default()
    };
    assert_eq!(
        config.into_parameters(),
        "--replicons /data/replicons.tsv --species coli --gram ?"
    );
}

#[test]
fn prodigal_flag_ignores_file_content() {
    let config = JobConfig { prodigal: Some(String::new()), ..JobConfig::default() };
    assert_eq!(config.into_parameters(), "--prodigal /data/prodigal.tf --gram ?");
}

#[test]
fn defaults_of_request_fields() {
    assert!(default_replicons());
    assert_eq!(RepliconTableType::default(), RepliconTableType::CSV);
}
