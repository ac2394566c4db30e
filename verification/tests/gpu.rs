use std::path::PathBuf;
use vhost_device_backends::{GpuConfig, GpuMode};

#[test]
fn test_gpu_config() {
    // Test the creation of GpuConfig struct
    let socket_path = PathBuf::from("/tmp/socket");
    let gpu_config = GpuConfig::new(socket_path.clone(), GpuMode::VirglRenderer);
    assert_eq!(gpu_config.get_socket_path(), socket_path);
}

#[test]
fn gpu_config_keeps_mode() {
    let config = GpuConfig::new(PathBuf::from("/run/gpu.sock"), GpuMode::Gfxstream);
    assert_eq!(config.gpu_mode(), GpuMode::Gfxstream);
    let config = GpuConfig::new(PathBuf::from("/run/gpu.sock"), GpuMode::VirglRenderer);
    assert_eq!(config.gpu_mode(), GpuMode::VirglRenderer);
}

#[test]
fn gpu_config_clone_keeps_fields() {
    let config = GpuConfig::new(PathBuf::from("/a/b"), GpuMode::Gfxstream);
    let copy = config.clone();
    assert_eq!(copy.get_socket_path(), PathBuf::from("/a/b"));
    assert_eq!(copy.gpu_mode(), GpuMode::Gfxstream);
    // the first configuration is untouched and the path is handed out again
    assert_eq!(config.get_socket_path(), PathBuf::from("/a/b"));
    assert_ne!(config.get_socket_path(), PathBuf::from("/a"));
}
