//! Information that keeps every protocol name as simple data, for trying
//! specs out without the routing of a particular protocol.
use vstd::prelude::*;

use crate::info::{InfoProvider, KeyRoute, RequestInfo};
use crate::mapper::{DefaultMapper, MapperView};

verus! {

/// Request information whose names all hold simple values.
pub struct TestRequestInfo(pub DefaultMapper);

impl TestRequestInfo {
    /// Information with an empty mapper.
    pub fn new() -> (r: Self)
        ensures
            r.mapper_view() == MapperView::empty(),
    {
        TestRequestInfo(DefaultMapper::new())
    }
}

impl KeyRoute for TestRequestInfo {
    /// Every name holds a simple value.
    open spec fn route(key: Seq<char>) -> Option<(Seq<char>, Seq<char>)> {
        None
    }

    fn key_route(&self, key: &str) -> (r: Option<(String, String)>) {
        None
    }
}

impl InfoProvider for TestRequestInfo {
    open spec fn mapper_view(&self) -> MapperView {
        self.0@
    }

    fn get_mapper_mut(&mut self) -> (r: &mut DefaultMapper) {
        &mut self.0
    }

    fn get_mapper(&self) -> (r: &DefaultMapper) {
        &self.0
    }
}

impl RequestInfo for TestRequestInfo {
}

} // verus!
