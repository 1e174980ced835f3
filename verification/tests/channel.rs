use conda_mirror::channel::get_channel;

#[test]
fn channel_of_deep_path() {
    assert_eq!(get_channel("/conda-forge/linux-64/numpy-1.2.tar.bz2"), "conda-forge");
}

#[test]
fn channel_of_single_segment() {
    assert_eq!(get_channel("/bioconda"), "bioconda");
}

#[test]
fn channel_of_root_path_is_empty() {
    assert_eq!(get_channel("/"), "");
}

#[test]
fn channel_of_empty_path_is_empty() {
    assert_eq!(get_channel(""), "");
}

#[test]
fn channel_without_leading_slash_is_second_split_piece() {
    assert_eq!(get_channel("abc/def"), "def");
}

#[test]
fn channel_without_any_slash_is_empty() {
    assert_eq!(get_channel("abc"), "");
}

#[test]
fn channel_of_consecutive_slashes_is_empty() {
    assert_eq!(get_channel("//linux-64/x.tar.bz2"), "");
}

#[test]
fn channel_with_multibyte_characters() {
    assert_eq!(get_channel("/каналы/noarch/x.tar.bz2"), "каналы");
}
