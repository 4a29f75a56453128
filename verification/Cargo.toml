[package]
name = "style"
version = "0.1.0"
edition = "2021"
publish = false

[dependencies]
app_units = "*"
cssparser = "*"
euclid = "*"
malloc_size_of = "*"
servo_arc = "*"
to_shmem = "*"
url = "*"
