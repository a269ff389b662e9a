[package]
name = "grz-check"
version = "0.1.0"
edition = "2021"
publish = false

[dependencies]
anyhow = "=1.0.104"
clap = { version = "=4.6.7", features = ["derive"] }
ctrlc = "=3.5.2"
indicatif = "=0.17.11"
itertools = "=0.14.0"
niffler = "=3.0.1"
noodles = { version = "=0.118.0", features = ["bam", "bgzf", "fastq", "sam"] }
rayon = "=1.12.0"
serde_json = "=1.0.154"
sha2 = "=0.10.9"

[dev-dependencies]
flate2 = "=1.1.10"
