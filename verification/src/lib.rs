pub mod cache; pub mod cape; pub mod codec; pub mod error; pub mod frame; pub mod helm; pub mod layout; pub mod mojang; pub mod pixels; pub mod render; pub mod routes; pub mod skin; pub mod text; pub mod types; pub mod viewer;
