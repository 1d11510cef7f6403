pub mod mshttp_c;
