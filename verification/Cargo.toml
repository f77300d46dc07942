[package]
name = "trusty_tail"
version = "0.1.0"
edition = "2021"
publish = false

[dependencies]
rand = "=0.8.8"
teloxide = { version = "=0.12.2", features = ["macros"] }
sea-orm = { version = "=0.12.15", default-features = false, features = ["sqlx-postgres", "runtime-tokio-rustls", "macros", "with-chrono"] }
sea-orm-migration = { version = "=0.12.15", default-features = false, features = ["sqlx-postgres", "runtime-tokio-rustls"] }
tera = { version = "=1.20.1", default-features = false }
tokio = { version = "=1.54.1", features = ["macros", "rt-multi-thread"] }
chrono = "=0.4.45"
log = "=0.4.35"
pretty_env_logger = "=0.5.0"
async-trait = "=0.1.92"
dptree = "=0.3.0"
sentry = { version = "=0.32.3", default-features = false }
# Not used by the code: teloxide-core depends on takecell, whose 0.1.2
# needs a newer rustc than the toolchain here; this holds it at 0.1.1.
takecell = "=0.1.1"
