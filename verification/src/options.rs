//! What the command line says: who uploads, and what is uploaded.

use crate::api::{Creator, CreatorType, ImageData};
use crate::header::Secret;
use vstd::prelude::*;

verus! {

/// The options that every command takes: how to authenticate, and for whom
/// assets are created.
#[derive(Debug)]
pub struct GlobalOptions {
    /// The API key, where one was given.
    pub api_key: Option<Secret>,
    /// The session cookie, where one was given.
    pub cookie: Option<Secret>,
    pub creator_type: CreatorType,
    pub creator_id: u64,
}

/// The options of the command that uploads an image. The file itself is
/// read by the caller.
#[derive(Debug, Clone, Copy)]
pub struct UploadImageOptions<'a> {
    pub name: &'a str,
    pub description: &'a str,
}

impl GlobalOptions {
    /// The account for which assets are created.
    pub fn creator(&self) -> (creator: Creator)
        ensures
            creator == (Creator { creator_type: self.creator_type, creator_id: self.creator_id }),
    {
        Creator { creator_type: self.creator_type, creator_id: self.creator_id }
    }
}

impl<'a> UploadImageOptions<'a> {
    /// What the service is told of the image.
    pub fn describe(&self, creator: Creator) -> (data: ImageData<'a>)
        ensures
            data.name@ == self.name@,
            data.description@ == self.description@,
            data.creator == creator,
    {
        ImageData { name: self.name, description: self.description, creator }
    }
}

} // verus!
