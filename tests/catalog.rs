use realm_downloader::catalog::{
    find_entry, find_texture, season_job, seasons, test_servers, texture_job, textures, BINARY_DEPOT,
    CONTENT_DEPOT, SHARED_DEPOT, TEST_SERVER_DEPOT,
};
use realm_downloader::job::{GAME_APP_ID, TEST_SERVER_APP_ID, TEXTURE_DEPOT};
use realm_downloader::resources::{is_archive, is_packed, missing_resources, resource_url, Resource, ResourceCheck};

#[test]
fn catalog_sizes() {
    assert_eq!(seasons().len(), 39);
    assert_eq!(test_servers().len(), 6);
    assert_eq!(textures().len(), 19);
}

#[test]
fn every_build_has_post_download_files() {
    for e in seasons() {
        assert_eq!(e.steps.iter().map(|s| s.depot).collect::<Vec<_>>(), vec![CONTENT_DEPOT, BINARY_DEPOT, SHARED_DEPOT]);
        assert!(!e.crack_folder.is_empty());
    }
    for e in test_servers() {
        assert_eq!(e.steps.len(), 1);
        assert_eq!(e.steps[0].depot, TEST_SERVER_DEPOT);
        assert!(!e.crack_folder.is_empty());
    }
    let t = textures();
    assert_eq!((t[0].name.as_str(), t[0].year.as_str(), t[0].manifest.as_str()), ("Vanilla", "Y1S0", "8394183851197739981"));
    let last = &t[t.len() - 1];
    assert_eq!((last.name.as_str(), last.year.as_str(), last.manifest.as_str()), ("Steel Wave", "Y5S2", "3257522596542046976"));
}

#[test]
fn season_lookup_and_job() {
    let all = seasons();
    let i = find_entry(&all, "Vanilla").unwrap();
    assert_eq!(all[i].year, "Y1S0");
    assert_eq!(find_entry(&all, "Nope"), None);
    let job = season_job(&all[i], false, "player", "", 25);
    assert_eq!(job.app_id, GAME_APP_ID);
    assert_eq!(job.steps.len(), 3);
    assert_eq!(job.steps[0].depot, CONTENT_DEPOT);
    assert_eq!(job.steps[1].depot, BINARY_DEPOT);
    assert_eq!(job.steps[2].depot, SHARED_DEPOT);
    assert_eq!(job.steps[0].manifest, "8358812283631269928");
    assert_eq!(job.crack_folder, "Y1SX-Y6S2");
    assert!(job.has_post_step());
    assert!(!job.textures);
    assert_eq!(all[i].size, "14.2 GB");
    assert_eq!(all[0].name, "Prep Phase");
}

#[test]
fn test_server_job() {
    let all = test_servers();
    let i = find_entry(&all, "Daybreak TS").unwrap();
    let job = season_job(&all[i], true, "player", "pw", 10);
    assert_eq!(job.app_id, TEST_SERVER_APP_ID);
    assert_eq!(job.steps[0].depot, TEST_SERVER_DEPOT);
    assert_eq!(job.steps[0].manifest, "5235883268902565724");
}

#[test]
fn texture_job_is_one_step() {
    let all = textures();
    let i = find_texture(&all, "Grim Sky").unwrap();
    let job = texture_job(&all[i], "player", "", 25);
    assert_eq!(job.name, "Grim Sky 4K Textures");
    assert_eq!(job.source, "Grim Sky");
    assert_eq!(job.steps.len(), 1);
    assert_eq!(job.steps[0].depot, TEXTURE_DEPOT);
    assert_eq!(job.steps[0].manifest, "6431001239225997495");
    assert!(!job.has_post_step());
    assert!(job.textures);
    assert_eq!(find_texture(&all, "Prep Phase"), None);
}

#[test]
fn resources_missing_in_fetch_order() {
    let c = ResourceCheck { seven_zip: false, depot_downloader: true, cracks: false, localization: false };
    assert_eq!(missing_resources(&c), vec![Resource::SevenZip, Resource::Cracks, Resource::Localization]);
    let all = ResourceCheck { seven_zip: true, depot_downloader: true, cracks: true, localization: true };
    assert!(missing_resources(&all).is_empty());
}

#[test]
fn archives_by_name() {
    assert!(is_archive("Siege-DXVK.zip"));
    assert!(is_archive("HeatedMetal.7z"));
    assert!(!is_archive("R6_Liberator_0.0.0.22.exe"));
    assert!(!is_archive("7z"));
}

#[test]
fn resource_sources() {
    assert_eq!(
        resource_url(Resource::SevenZip),
        "https://github.com/DataCluster0/R6TBBatchTool/raw/master/Requirements/7z.exe"
    );
    assert_eq!(
        resource_url(Resource::Localization),
        "https://github.com/Vergepoland/r6-downloader/raw/refs/heads/main/localization.lang"
    );
    assert!(is_packed(Resource::Cracks));
    assert!(!is_packed(Resource::SevenZip));
}
