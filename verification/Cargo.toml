[package]
name = "async-graphql-actix-web"
version = "0.1.0"
edition = "2021"
publish = false

[dependencies]
# Called by the library.
async-graphql = "=1.7.8"
bytes = "=0.5.6"
mime = "=0.3.17"
serde_json = "=1.0.61"
# Called by the server crate in app/ only.
actix = "=0.9.0"
actix-multipart = "=0.2.0"
actix-web = "=2.0.0"
actix-web-actors = "=2.0.0"
futures = "=0.3.34"
# Named by no code of this package. They are held at these versions because
# actix-web 2.0 and async-graphql 1.7 do not build against the newest
# versions that their own requirements admit.
async-graphql-derive = "=1.7.8"
chrono = "=0.4.19"
chrono-tz = "=0.5.1"
serde = "=1.0.118"
serde_derive = "=1.0.118"
