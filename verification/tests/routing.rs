use conda_mirror::config::MirrorConfig;
use conda_mirror::router::{
    get_anaconda_official_url, get_cloud_channel_url, get_mirrored_package_url,
    get_pkgs_channel_url, RewriteError,
};

const OFFICIAL: &str = "https://conda.anaconda.org";
const MIRROR: &str = "https://mirror.example.org";

fn config(pkgs: &str, cloud: &str) -> MirrorConfig {
    MirrorConfig::new(OFFICIAL, MIRROR, pkgs, cloud).unwrap()
}

#[test]
fn scenario_a_pkgs_channel_goes_to_packages_archive() {
    let cfg = config("conda-forge", "");
    let url = get_mirrored_package_url("/conda-forge/linux-64/numpy-1.2.tar.bz2", &cfg).unwrap();
    assert_eq!(url, "https://mirror.example.org/pkg/conda-forge/linux-64/numpy-1.2.tar.bz2");
}

#[test]
fn scenario_b_cloud_channel_goes_to_cloud_archive() {
    let cfg = config("", "bioconda");
    let url = get_mirrored_package_url("/bioconda/noarch/x.tar.bz2", &cfg).unwrap();
    assert_eq!(url, "https://mirror.example.org/cloud/bioconda/noarch/x.tar.bz2");
}

#[test]
fn scenario_c_unknown_channel_falls_back_to_official() {
    let cfg = config("conda-forge", "bioconda");
    let url = get_mirrored_package_url("/unknownchan/linux-64/x.tar.bz2", &cfg).unwrap();
    assert_eq!(url, "https://conda.anaconda.org/unknownchan/linux-64/x.tar.bz2");
}

#[test]
fn scenario_d_root_path_goes_to_official() {
    let cfg = config("conda-forge", "bioconda");
    let url = get_mirrored_package_url("/", &cfg).unwrap();
    assert_eq!(url, "https://conda.anaconda.org/");
}

#[test]
fn channel_in_both_sets_prefers_packages_archive() {
    let cfg = config("conda-forge\nshared", "shared\nbioconda");
    let url = get_mirrored_package_url("/shared/noarch/y.conda", &cfg).unwrap();
    assert_eq!(url, "https://mirror.example.org/pkg/shared/noarch/y.conda");
}

#[test]
fn route_is_deterministic_across_calls() {
    let cfg = config("conda-forge", "bioconda");
    let first = get_mirrored_package_url("/conda-forge/osx-64/z.tar.bz2", &cfg);
    let second = get_mirrored_package_url("/conda-forge/osx-64/z.tar.bz2", &cfg);
    assert_eq!(first, second);
    assert_eq!(first.unwrap(), "https://mirror.example.org/pkg/conda-forge/osx-64/z.tar.bz2");
}

#[test]
fn pkgs_rewrite_prefixes_pkg_segment() {
    let cfg = config("", "");
    let url = get_pkgs_channel_url("/a/b.tar.bz2", &cfg).unwrap();
    assert_eq!(url, "https://mirror.example.org/pkg/a/b.tar.bz2");
}

#[test]
fn cloud_rewrite_prefixes_cloud_segment() {
    let cfg = config("", "");
    let url = get_cloud_channel_url("/a/b.tar.bz2", &cfg).unwrap();
    assert_eq!(url, "https://mirror.example.org/cloud/a/b.tar.bz2");
}

#[test]
fn official_rewrite_joins_path_onto_official_base() {
    let cfg = config("", "");
    let url = get_anaconda_official_url("/a/b.tar.bz2", &cfg).unwrap();
    assert_eq!(url, "https://conda.anaconda.org/a/b.tar.bz2");
}

#[test]
fn mirror_base_that_cannot_take_a_path_gives_rewrite_error() {
    // A mailto URL is a valid absolute URL, so configuration loading takes
    // it, but a path cannot be resolved against it.
    let cfg = MirrorConfig::new(OFFICIAL, "mailto:owner@example.org", "conda-forge", "").unwrap();
    let result = get_mirrored_package_url("/conda-forge/linux-64/x.tar.bz2", &cfg);
    assert_eq!(result, Err(RewriteError));
}

#[test]
fn empty_channel_name_in_set_captures_root_path() {
    // A blank line in the packages list names the empty channel, which is
    // what the root path classifies to.
    let cfg = config("\nconda-forge", "");
    let url = get_mirrored_package_url("/", &cfg).unwrap();
    assert_eq!(url, "https://mirror.example.org/pkg/");
}
