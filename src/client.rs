use vstd::prelude::*;

use crate::config::Config;
use crate::error::Error;
use crate::photo::{Photo, MultipartForm, crop_parts, image_part_spec, path_extension, path_file_name};
use crate::profile::{BodyField, Profile, fields_view, status_fields};

verus! {

#[derive(PartialEq, Eq, Structural, Debug, Clone, Copy)]
pub enum HttpMethod {
    Get,
    Post,
}

/// The body of a request.
#[derive(Debug, PartialEq, Eq)]
pub enum RequestBody {
    Empty,
    /// A JSON object that holds the given fields under the key "profile".
    UpdateUser(Vec<BodyField>),
    Multipart(MultipartForm),
}

/// One call of the remote API, ready to be sent.
#[derive(Debug, PartialEq, Eq)]
pub struct ApiRequest {
    pub method: HttpMethod,
    pub url: String,
    /// The value of the `Authorization` header.
    pub authorization: String,
    pub body: RequestBody,
}

pub open spec fn profile_get_url() -> Seq<char> {
    "https://slack.com/api/users.profile.get"@
}

pub open spec fn profile_set_url() -> Seq<char> {
    "https://slack.com/api/users.profile.set"@
}

pub open spec fn set_photo_url() -> Seq<char> {
    "https://slack.com/api/users.setPhoto"@
}

/// The `Authorization` header for a token.
pub open spec fn bearer_of(token: Seq<char>) -> Seq<char> {
    "Bearer "@ + token
}

/// A client of the remote API, holding the credential.
#[derive(Debug, PartialEq, Eq)]
pub struct App {
    pub config: Config,
}

impl App {
    pub fn new(config: Config) -> (r: App)
        ensures
            r == (App { config }),
    {
        App { config }
    }

    pub fn token(&self) -> (r: &str)
        ensures
            r@ == self.config.token@,
    {
        self.config.token.as_str()
    }

    pub fn from_config(config: Config) -> (r: App)
        ensures
            r == (App { config }),
    {
        App::new(config)
    }

    /// A client from the outcome of loading the configuration; a failed load is passed on.
    pub fn from_config_path(loaded: Result<Config, Error>) -> (r: Result<App, Error>)
        ensures
            match loaded {
                Ok(c) => r == Ok::<App, Error>(App { config: c }),
                Err(e) => r == Err::<App, Error>(e),
            },
    {
        match loaded {
            Ok(c) => Ok(App::from_config(c)),
            Err(e) => Err(e),
        }
    }

    pub fn bearer(&self) -> (r: String)
        ensures
            r@ == bearer_of(self.config.token@),
    {
        String::from_str("Bearer ").concat(self.token())
    }

    /// The request that fetches the profile.
    pub fn get_user_request(&self) -> (r: ApiRequest)
        ensures
            r.method == HttpMethod::Get,
            r.url@ == profile_get_url(),
            r.authorization@ == bearer_of(self.config.token@),
            r.body is Empty,
    {
        ApiRequest {
            method: HttpMethod::Get,
            url: String::from_str("https://slack.com/api/users.profile.get"),
            authorization: self.bearer(),
            body: RequestBody::Empty,
        }
    }

    /// The request that sets the status: only the fields that are set go in the body.
    pub fn set_status_request(&self, profile: &Profile) -> (r: ApiRequest)
        ensures
            r.method == HttpMethod::Post,
            r.url@ == profile_set_url(),
            r.authorization@ == bearer_of(self.config.token@),
            r.body matches RequestBody::UpdateUser(f) && fields_view(f@) == status_fields(*profile),
    {
        ApiRequest {
            method: HttpMethod::Post,
            url: String::from_str("https://slack.com/api/users.profile.set"),
            authorization: self.bearer(),
            body: RequestBody::UpdateUser(profile.body_fields()),
        }
    }

    /// The request that uploads a photo; it fails where the path gives no file
    /// name or no extension.
    pub fn set_photo_request(&self, photo: &Photo) -> (r: Result<ApiRequest, Error>)
        ensures
            match image_part_spec(path_file_name(photo.image@), path_extension(photo.image@)) {
                Ok(p) => r matches Ok(q) && {
                    &&& q.method == HttpMethod::Post
                    &&& q.url@ == set_photo_url()
                    &&& q.authorization@ == bearer_of(self.config.token@)
                    &&& q.body matches RequestBody::Multipart(f) && f@ == seq![p] + crop_parts(*photo)
                },
                Err(e) => r == Err::<ApiRequest, Error>(e),
            },
    {
        match photo.form() {
            Ok(form) => Ok(ApiRequest {
                method: HttpMethod::Post,
                url: String::from_str("https://slack.com/api/users.setPhoto"),
                authorization: self.bearer(),
                body: RequestBody::Multipart(form),
            }),
            Err(e) => Err(e),
        }
    }
}

} // verus!
