use ui_overlay::backend::{Backend, BackendType, SurfaceGeometry};

#[test]
fn test_backend_type() {
    assert_eq!(std::mem::discriminant(&BackendType::MetalGpu), std::mem::discriminant(&BackendType::MetalGpu));
}

#[test]
fn surface_is_rebuilt_only_when_needed() {
    let mut g = SurfaceGeometry::new(800, 600);
    assert!(!g.prepare_surface(800, 600));
    assert!(g.prepare_surface(1024, 768));
    assert_eq!((g.width, g.height), (1024, 768));
    g.resize(1024, 768);
    assert!(g.prepare_surface(1024, 768));
    assert!(!g.prepare_surface(1024, 768));
}

#[test]
fn gpu_failure_falls_back_to_cpu() {
    assert_eq!(Backend::Metal.with_fallback(false), Backend::Cpu);
    assert_eq!(Backend::GL.with_fallback(true), Backend::GL);
    assert_eq!(Backend::Cpu.with_fallback(true), Backend::Cpu);
    assert!(Backend::Metal.is_gpu_accelerated());
    assert!(!Backend::Cpu.is_gpu_accelerated());
    assert!(BackendType::CpuRaster.needs_software_present());
    assert!(!BackendType::MetalGpu.needs_software_present());
    assert!(BackendType::Direct3dGpu.is_gpu());
}
