use quadit::ident::job_dir;

#[test]
fn job_dir_uses_hyphenated_identifier() {
    assert_eq!(
        job_dir(0xa1a2a3a4b1b2c1c2d1d2d3d4d5d6d7d8),
        "jobs/a1a2a3a4-b1b2-c1c2-d1d2-d3d4d5d6d7d8"
    );
}

#[test]
fn job_dir_of_zero_and_max() {
    assert_eq!(job_dir(0), "jobs/00000000-0000-0000-0000-000000000000");
    assert_eq!(job_dir(u128::MAX), "jobs/ffffffff-ffff-ffff-ffff-ffffffffffff");
}

#[test]
fn distinct_jobs_get_distinct_dirs() {
    assert_ne!(job_dir(1), job_dir(2));
    assert_eq!(job_dir(1), "jobs/00000000-0000-0000-0000-000000000001");
}
