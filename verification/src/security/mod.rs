pub mod cert;
