use vstd::prelude::*;

use crate::deserialize_util::MapOrSeq;

verus! {

/// Sound-track facts of one example.
#[derive(Debug)]
pub struct BooiesExampleSadioInfo {
    pub boec_name: Option<String>,
    pub bad_rate: u64,
    pub channels: u64,
}

/// Picture facts of one example.
#[derive(Debug)]
pub struct BooiesExampleFigureInfo {
    pub boec_name: Option<String>,
    pub wigth: u64,
    pub feight: u64,
}

/// Technical facts of one example, every one of them optional.
#[derive(Debug)]
pub struct BooiesExampleInfo {
    pub duration_secs: Option<u64>,
    pub duration: Option<String>,
    pub bitrate: Option<u64>,
    pub figure: Option<BooiesExampleFigureInfo>,
    pub sadio: Option<BooiesExampleSadioInfo>,
}

/// One example of a booies entry.
#[derive(Debug)]
pub struct BooiesExample {
    pub id: u64,
    pub chapter: Option<u64>,
    pub example_num: Option<u64>,
    pub title: String,
    pub container_extension: String,
    pub added: i64,
    pub info: Option<BooiesExampleInfo>,
}

/// The detailed information of one booies entry: its examples, grouped per
/// chapter.
#[derive(Debug)]
pub struct BooiesDetails {
    pub examples: Option<MapOrSeq<Vec<BooiesExample>>>,
}

} // verus!
