//! Locations and download sources of the geo-ip and geo-site databases
//! each backend needs.

use vstd::prelude::*;

verus! {

use vstd::string::StringExecFns;
use crate::persistence::AppPaths;
use crate::settings::BackendType;
use crate::strutil::path_join;
use crate::sys;

/// One file to fetch: where from, and what to store it as.
#[derive(Debug, Clone, PartialEq)]
pub struct GeodataDownload {
    pub url: String,
    pub filename: String,
}

/// The geodata directory and the metadata file inside it.
#[derive(Debug, Clone, PartialEq)]
pub struct GeodataManager {
    geodata_dir: String,
    metadata_path: String,
}

pub open spec fn spec_geoip_filename(bt: BackendType) -> Seq<char> {
    match bt {
        BackendType::V2ray => "geoip.dat"@,
        BackendType::Xray => "geoip.dat"@,
        BackendType::SingBox => "geoip.db"@,
    }
}

pub open spec fn spec_geosite_filename(bt: BackendType) -> Seq<char> {
    match bt {
        BackendType::V2ray => "geosite.dat"@,
        BackendType::Xray => "geosite.dat"@,
        BackendType::SingBox => "geosite.db"@,
    }
}

impl GeodataManager {
    pub closed spec fn spec_geodata_dir(&self) -> Seq<char> {
        self.geodata_dir@
    }

    pub closed spec fn spec_metadata_path(&self) -> Seq<char> {
        self.metadata_path@
    }

    /// A manager rooted at the application's geodata directory.
    pub fn new(paths: &AppPaths) -> (r: Self)
        ensures
            r.spec_geodata_dir() == paths.spec_data_dir() + "/"@ + "geodata"@,
            r.spec_metadata_path() == r.spec_geodata_dir() + "/"@ + "metadata.json"@,
    {
        let geodata_dir = paths.geodata_dir();
        let metadata_path = path_join(geodata_dir.as_str(), "metadata.json");
        GeodataManager { geodata_dir, metadata_path }
    }

    /// Creates the geodata directory, privately readable, when missing.
    pub fn ensure_dir(&self) -> (r: Result<(), i32>) {
        crate::pid::make_dirs_all(self.geodata_dir.as_str(), 0o700)
    }

    /// The geodata directory.
    pub fn geodata_dir(&self) -> (r: &str)
        ensures
            r@ == self.spec_geodata_dir(),
    {
        self.geodata_dir.as_str()
    }

    /// Where the geo-ip database of `backend` lives.
    pub fn geoip_path(&self, backend: BackendType) -> (r: String)
        ensures
            r@ == self.spec_geodata_dir() + "/"@ + spec_geoip_filename(backend),
    {
        let filename = match backend {
            BackendType::V2ray => "geoip.dat",
            BackendType::Xray => "geoip.dat",
            BackendType::SingBox => "geoip.db",
        };
        path_join(self.geodata_dir.as_str(), filename)
    }

    /// Where the geo-site database of `backend` lives.
    pub fn geosite_path(&self, backend: BackendType) -> (r: String)
        ensures
            r@ == self.spec_geodata_dir() + "/"@ + spec_geosite_filename(backend),
    {
        let filename = match backend {
            BackendType::V2ray => "geosite.dat",
            BackendType::Xray => "geosite.dat",
            BackendType::SingBox => "geosite.db",
        };
        path_join(self.geodata_dir.as_str(), filename)
    }

    /// Whether both databases of `backend` are present on disk.
    pub fn has_geodata(&self, backend: BackendType) -> (r: bool) {
        let geoip = self.geoip_path(backend);
        let geosite = self.geosite_path(backend);
        sys::file_mode(geoip.as_str()).is_some() && sys::file_mode(geosite.as_str()).is_some()
    }

    /// The fixed download sources of `backend`'s two databases.
    pub fn download_urls(backend: BackendType) -> (r: Vec<GeodataDownload>)
        ensures
            r@.len() == 2,
            r@[0].filename@ == spec_geoip_filename(backend),
            r@[1].filename@ == spec_geosite_filename(backend),
            backend != BackendType::SingBox ==> r@[0].url@
                == "https://github.com/v2fly/geoip/releases/latest/download/geoip.dat"@
                && r@[1].url@
                == "https://github.com/v2fly/domain-list-community/releases/latest/download/dlc.dat"@,
            backend == BackendType::SingBox ==> r@[0].url@
                == "https://github.com/SagerNet/sing-geoip/releases/latest/download/geoip.db"@
                && r@[1].url@
                == "https://github.com/SagerNet/sing-geosite/releases/latest/download/geosite.db"@,
    {
        let mut out: Vec<GeodataDownload> = Vec::new();
        match backend {
            BackendType::V2ray | BackendType::Xray => {
                out.push(
                    GeodataDownload {
                        url: String::from_str(
                            "https://github.com/v2fly/geoip/releases/latest/download/geoip.dat",
                        ),
                        filename: String::from_str("geoip.dat"),
                    },
                );
                out.push(
                    GeodataDownload {
                        url: String::from_str(
                            "https://github.com/v2fly/domain-list-community/releases/latest/download/dlc.dat",
                        ),
                        filename: String::from_str("geosite.dat"),
                    },
                );
            },
            BackendType::SingBox => {
                out.push(
                    GeodataDownload {
                        url: String::from_str(
                            "https://github.com/SagerNet/sing-geoip/releases/latest/download/geoip.db",
                        ),
                        filename: String::from_str("geoip.db"),
                    },
                );
                out.push(
                    GeodataDownload {
                        url: String::from_str(
                            "https://github.com/SagerNet/sing-geosite/releases/latest/download/geosite.db",
                        ),
                        filename: String::from_str("geosite.db"),
                    },
                );
            },
        }
        out
    }
}

} // verus!
