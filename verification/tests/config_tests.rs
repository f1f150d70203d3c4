use v2ray_rs::config::{first_proxy_tag, is_xtls_flow, outbound_tag, ConfigWriter};
use v2ray_rs::geodata::GeodataManager;
use v2ray_rs::persistence::{slugify, AppPaths};
use v2ray_rs::proxy::{ProxyNode, ShadowsocksConfig};
use v2ray_rs::settings::BackendType;

#[test]
fn test_output_path_v2ray() {
    let writer = ConfigWriter::with_dir("/tmp/test".to_string());
    assert_eq!(writer.output_path(BackendType::V2ray), "/tmp/test/v2ray.json");
}

#[test]
fn test_output_path_xray() {
    let writer = ConfigWriter::with_dir("/tmp/test".to_string());
    assert_eq!(writer.output_path(BackendType::Xray), "/tmp/test/xray.json");
}

#[test]
fn test_output_path_singbox() {
    let writer = ConfigWriter::with_dir("/tmp/test".to_string());
    assert_eq!(
        writer.output_path(BackendType::SingBox),
        "/tmp/test/sing-box.json"
    );
}

#[test]
fn test_download_urls_v2ray() {
    let urls = GeodataManager::download_urls(BackendType::V2ray);
    assert_eq!(urls.len(), 2);
    assert!(urls[0].url.contains("v2fly/geoip"));
    assert_eq!(urls[0].filename, "geoip.dat");
    assert!(urls[1].url.contains("domain-list-community"));
    assert_eq!(urls[1].filename, "geosite.dat");
}

#[test]
fn test_download_urls_xray() {
    let urls = GeodataManager::download_urls(BackendType::Xray);
    assert_eq!(urls.len(), 2);
    assert!(urls[0].url.contains("v2fly/geoip"));
    assert_eq!(urls[0].filename, "geoip.dat");
}

#[test]
fn test_download_urls_singbox() {
    let urls = GeodataManager::download_urls(BackendType::SingBox);
    assert_eq!(urls.len(), 2);
    assert!(urls[0].url.contains("SagerNet/sing-geoip"));
    assert_eq!(urls[0].filename, "geoip.db");
    assert!(urls[1].url.contains("SagerNet/sing-geosite"));
    assert_eq!(urls[1].filename, "geosite.db");
}

#[test]
fn test_geodata_paths_per_backend() {
    let paths = AppPaths::from_paths("/cfg".to_string(), "/data".to_string());
    let mgr = GeodataManager::new(&paths);
    assert_eq!(mgr.geodata_dir(), "/data/geodata");
    assert_eq!(mgr.geoip_path(BackendType::V2ray), "/data/geodata/geoip.dat");
    assert_eq!(mgr.geoip_path(BackendType::Xray), "/data/geodata/geoip.dat");
    assert_eq!(mgr.geoip_path(BackendType::SingBox), "/data/geodata/geoip.db");
    assert_eq!(
        mgr.geosite_path(BackendType::SingBox),
        "/data/geodata/geosite.db"
    );
}

#[test]
fn test_app_paths_layout() {
    let paths = AppPaths::from_paths("/cfg".to_string(), "/data".to_string());
    assert_eq!(paths.settings_path(), "/cfg/settings.toml");
    assert_eq!(paths.subscriptions_path(), "/data/subscriptions.json");
    assert_eq!(paths.routing_rules_path(), "/data/routing_rules.json");
    assert_eq!(paths.geodata_dir(), "/data/geodata");
    assert_eq!(paths.presets_dir(), "/data/presets");
}

fn tempdir_paths(dir: &tempfile::TempDir) -> AppPaths {
    AppPaths::from_paths(
        dir.path().join("config").to_str().unwrap().to_string(),
        dir.path().join("data").to_str().unwrap().to_string(),
    )
}

fn tempdir_manager(dir: &tempfile::TempDir) -> GeodataManager {
    GeodataManager::new(&tempdir_paths(dir))
}

#[test]
fn test_config_writer_new_uses_user_override() {
    let dir = tempfile::TempDir::new().unwrap();
    let paths = tempdir_paths(&dir);
    let mut settings = v2ray_rs::settings::AppSettings::default();
    settings.backend.config_output_dir = Some("/custom/path".to_string());

    let writer = ConfigWriter::new(&settings, &paths);
    assert_eq!(writer.output_path(BackendType::Xray), "/custom/path/xray.json");
}

#[test]
fn test_config_writer_new_uses_default_path() {
    let dir = tempfile::TempDir::new().unwrap();
    let paths = tempdir_paths(&dir);
    let settings = v2ray_rs::settings::AppSettings::default();

    let writer = ConfigWriter::new(&settings, &paths);
    let expected = dir
        .path()
        .join("data")
        .join("generated")
        .join("xray.json")
        .to_str()
        .unwrap()
        .to_string();
    assert_eq!(writer.output_path(BackendType::Xray), expected);
}

#[test]
fn test_has_geodata_missing_files() {
    let dir = tempfile::TempDir::new().unwrap();
    let manager = tempdir_manager(&dir);
    assert!(!manager.has_geodata(BackendType::V2ray));
    assert!(!manager.has_geodata(BackendType::Xray));
    assert!(!manager.has_geodata(BackendType::SingBox));
}

#[test]
fn test_geoip_path_v2ray() {
    let dir = tempfile::TempDir::new().unwrap();
    let manager = tempdir_manager(&dir);
    let path = manager.geoip_path(BackendType::V2ray);
    assert!(path.ends_with("geoip.dat"));
}

#[test]
fn test_geoip_path_xray() {
    let dir = tempfile::TempDir::new().unwrap();
    let manager = tempdir_manager(&dir);
    let path = manager.geoip_path(BackendType::Xray);
    assert!(path.ends_with("geoip.dat"));
}

#[test]
fn test_geoip_path_singbox() {
    let dir = tempfile::TempDir::new().unwrap();
    let manager = tempdir_manager(&dir);
    let path = manager.geoip_path(BackendType::SingBox);
    assert!(path.ends_with("geoip.db"));
}

#[test]
fn test_geosite_path_v2ray() {
    let dir = tempfile::TempDir::new().unwrap();
    let manager = tempdir_manager(&dir);
    let path = manager.geosite_path(BackendType::V2ray);
    assert!(path.ends_with("geosite.dat"));
}

#[test]
fn test_geosite_path_singbox() {
    let dir = tempfile::TempDir::new().unwrap();
    let manager = tempdir_manager(&dir);
    let path = manager.geosite_path(BackendType::SingBox);
    assert!(path.ends_with("geosite.db"));
}

#[test]
fn ensure_dirs_creates_private_directories() {
    let dir = tempfile::TempDir::new().unwrap();
    let paths = tempdir_paths(&dir);
    paths.ensure_dirs().unwrap();
    let config_mode = v2ray_rs::sys::file_mode(paths.config_dir()).unwrap();
    let data_mode = v2ray_rs::sys::file_mode(paths.data_dir()).unwrap();
    assert_eq!(config_mode & 0o777, 0o700);
    assert_eq!(data_mode & 0o777, 0o700);
}

#[test]
fn test_ensure_dir_creates_directory() {
    let dir = tempfile::TempDir::new().unwrap();
    let manager = tempdir_manager(&dir);
    manager.ensure_dir().unwrap();
    assert!(v2ray_rs::sys::file_mode(manager.geodata_dir()).is_some());
}

#[test]
fn test_outbound_tag_with_and_without_remark() {
    let with_remark = ProxyNode::Shadowsocks(ShadowsocksConfig {
        address: "a.com".into(),
        port: 1,
        method: "m".into(),
        password: "p".into(),
        remark: Some("node".into()),
    });
    let without_remark = ProxyNode::Shadowsocks(ShadowsocksConfig {
        address: "a.com".into(),
        port: 1,
        method: "m".into(),
        password: "p".into(),
        remark: None,
    });
    assert_eq!(outbound_tag(&with_remark, 2), "proxy-2-node");
    assert_eq!(outbound_tag(&without_remark, 11), "proxy-11");
    assert_eq!(first_proxy_tag(), "proxy-0");
}

#[test]
fn test_is_xtls_flow() {
    assert!(is_xtls_flow("xtls-rprx-vision"));
    assert!(is_xtls_flow("xtls-rprx-direct"));
    assert!(!is_xtls_flow("plain"));
    assert!(!is_xtls_flow(""));
}

#[test]
fn test_slugify() {
    assert_eq!(slugify("My Preset Name"), "my-preset-name");
    assert_eq!(slugify("  Hello,  World!  "), "hello-world");
    assert_eq!(slugify("Already-Slugged"), "already-slugged");
    assert_eq!(slugify("***"), "");
}
