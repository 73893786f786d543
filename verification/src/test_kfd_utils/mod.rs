pub mod kfd_base_component;
