pub mod mshttp_s;
