use vstd::prelude::*;

verus! {

/// A stored user record. `password` always holds an encoded password hash,
/// never the plaintext.
#[derive(Debug, Clone)]
pub struct User {
    pub id: i32,
    pub name: String,
    pub username: String,
    pub email: String,
    pub password: String,
}

/// The input of a registration.
#[derive(Debug, Clone)]
pub struct RegisterUser {
    pub name: String,
    pub username: String,
    pub email: String,
    pub password: String,
}

/// The input of a login.
#[derive(Debug, Clone)]
pub struct LoginUser {
    pub email: String,
    pub password: String,
}

/// The claims carried by a session token: the subject's user id, when it was
/// issued and when it expires, both in seconds since the Unix epoch.
#[derive(Debug, Clone, Copy, PartialEq, Eq, Structural)]
pub struct TokenClaims {
    pub sub: i32,
    pub iat: usize,
    pub exp: usize,
}

/// A user record as it is shown to clients: everything but the password hash.
#[derive(Debug, Clone)]
pub struct UserResponse {
    pub id: i32,
    pub name: String,
    pub username: String,
    pub email: String,
}

/// A blog post. `date_published` is in seconds since the Unix epoch.
#[derive(Debug, Clone)]
pub struct Post {
    pub id: i32,
    pub title: String,
    pub content: String,
    pub date_published: i64,
    pub author_id: i32,
    pub category_id: i32,
}

/// The input of a new post.
#[derive(Debug, Clone)]
pub struct NewPost {
    pub title: String,
    pub content: String,
    pub category_id: i32,
}

/// A user's public fields together with their posts.
#[derive(Debug, Clone)]
pub struct UserPostResponse {
    pub name: String,
    pub username: String,
    pub email: String,
    pub posts: Vec<Post>,
}

/// Process-wide configuration, loaded once at startup.
#[derive(Debug, Clone)]
pub struct Config {
    pub database_url: String,
    pub jwt_secret: String,
    pub port: u16,
}

/// Marker for the routes of the post resource.
pub struct PostRouter;

/// Marker for the routes of the user resource.
pub struct UserRouter;

impl User {
    /// A field-for-field copy of the record.
    pub fn copy(&self) -> (r: User)
        ensures
            r == *self,
    {
        User {
            id: self.id,
            name: self.name.clone(),
            username: self.username.clone(),
            email: self.email.clone(),
            password: self.password.clone(),
        }
    }

    /// The record without its password hash.
    pub fn filter_user_record(self) -> (r: UserResponse)
        ensures
            r.id == self.id,
            r.name@ == self.name@,
            r.username@ == self.username@,
            r.email@ == self.email@,
    {
        UserResponse { id: self.id, email: self.email, name: self.name, username: self.username }
    }
}

impl NewPost {
    /// A new post by `author_id`; the author is taken from the authenticated
    /// identity when the post is stored, so it is not kept here.
    pub fn new(title: String, content: String, author_id: i32, category_id: i32) -> (r: NewPost)
        ensures
            r.title@ == title@,
            r.content@ == content@,
            r.category_id == category_id,
    {
        NewPost { title, content, category_id }
    }
}

impl UserPostResponse {
    /// The public fields of `user` together with `post`, in the given order.
    pub fn response(user: UserResponse, post: Vec<Post>) -> (r: UserPostResponse)
        ensures
            r.name@ == user.name@,
            r.username@ == user.username@,
            r.email@ == user.email@,
            r.posts@ == post@,
    {
        UserPostResponse { name: user.name, username: user.username, email: user.email, posts: post }
    }
}

impl Config {
    pub fn new(database_url: String, jwt_secret: String, port: u16) -> (r: Config)
        ensures
            r.database_url@ == database_url@,
            r.jwt_secret@ == jwt_secret@,
            r.port == port,
    {
        Config { database_url, jwt_secret, port }
    }
}

} // verus!
