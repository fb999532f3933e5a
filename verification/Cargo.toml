[package]
name = "foro_ruff"
version = "0.1.0"
edition = "2021"
publish = false

[dependencies]
ruff_python_ast = "=0.0.10"
ruff_python_formatter = "=0.0.10"
ruff_formatter = "=0.0.10"
ruff_python_parser = "=0.0.10"
ruff_python_trivia = "=0.0.10"
ruff_workspace = "=0.0.10"
serde_json = "*"
# The two salsa pins are not called anywhere: they hold the transitive tree
# on the salsa patch that the ruff 0.0.10 line compiles against.
salsa = "=0.28.2"
salsa-macro-rules = "=0.28.2"

[dev-dependencies]
# Pinned so that ruff_workspace's own ruff_linter requirement resolves to
# the release that matches the ruff 0.0.10 line; tests also build settings
# values through it.
ruff_linter = "=0.16.4"
